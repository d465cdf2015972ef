//! The quad pipeline: what the renderer keeps between frames.

use crate::batch::{chunks, lemma_chunks, Chunk, MAX_INSTANCES};
use crate::command::Command;
use crate::frame::{chunk_commands, frame_commands, scissor_box, spec_scissor_box, Frame};
use crate::layer;
use crate::layer::Rectangle;
use crate::quad::{
    instances_to_slice, vertex_bytes, vertex_words, vertices, QUAD_VERTICES, VERTEX_WORDS,
};
use crate::setup::buffer_bytes;
use crate::transformation::Transformation;
use crate::uniform::Uniforms;
use vstd::endian::{endianness, Endian};
use vstd::prelude::*;
use vstd::slice::slice_subrange;

verus! {

/// The state of the quad pipeline on the CPU side: the buffer in which
/// vertex records are put together, the uniforms that the device holds, and
/// whether frames are clipped to their bounds.
#[derive(Debug)]
pub struct Pipeline {
    instance_buffer: Vec<u32>,
    uniforms: Uniforms,
    clipping: bool,
}

impl Pipeline {
    /// The uniforms that the device holds.
    pub closed spec fn uniforms(&self) -> Uniforms {
        self.uniforms
    }

    /// Whether drawing is restricted to the bounds given with each frame.
    pub closed spec fn clipping(&self) -> bool {
        self.clipping
    }

    /// The numbers in the buffer of vertex records.
    pub closed spec fn staged(&self) -> Seq<u32> {
        self.instance_buffer@
    }

    /// The pipeline as it is when the device has been set up: the device
    /// holds the initial uniforms, nothing is staged, and frames are not
    /// clipped. The buffer of vertex records gets room for a full chunk, so
    /// that no frame has to allocate.
    pub fn new() -> (pipeline: Pipeline)
        ensures
            pipeline.uniforms() == Uniforms::initial(),
            pipeline.staged() == Seq::<u32>::empty(),
            !pipeline.clipping(),
    {
        Pipeline {
            instance_buffer: Vec::with_capacity(MAX_INSTANCES * QUAD_VERTICES * VERTEX_WORDS),
            uniforms: Uniforms::new(),
            clipping: false,
        }
    }

    /// Switches the clipping of frames to their bounds on or off.
    pub fn set_clipping(&mut self, enabled: bool)
        ensures
            final(self).clipping() == enabled,
            final(self).uniforms() == old(self).uniforms(),
            final(self).staged() == old(self).staged(),
    {
        self.clipping = enabled;
    }

    /// Whether frames are clipped to their bounds.
    pub fn is_clipping(&self) -> (enabled: bool)
        ensures
            enabled == self.clipping(),
    {
        self.clipping
    }

    /// The uniforms that the device holds.
    pub fn current_uniforms(&self) -> (uniforms: Uniforms)
        ensures
            uniforms == self.uniforms(),
    {
        self.uniforms
    }

    /// Begins a frame: records the frame's uniforms and returns the frame,
    /// which hands out the commands to perform.
    ///
    /// The frame binds the pipeline, uploads those uniforms that differ from
    /// what the device holds, draws `instances` in chunks and unbinds. With
    /// clipping switched on, it also restricts drawing to `bounds` for its
    /// duration.
    pub fn draw(
        &mut self,
        target_height: u32,
        instances: &[layer::Quad],
        transformation: Transformation,
        scale: u32,
        bounds: Rectangle,
    ) -> (frame: Frame)
        ensures
            frame.remaining() == frame_commands(
                if old(self).clipping() {
                    Some(spec_scissor_box(target_height, bounds))
                } else {
                    None
                },
                old(self).uniforms().changes_to(
                    (Uniforms { transform: transformation, scale, target_height }),
                ),
                instances.len(),
            ),
            final(self).uniforms() == old(self).uniforms().with(
                old(self).uniforms().changes_to(
                    (Uniforms { transform: transformation, scale, target_height }),
                ),
            ),
            final(self).clipping() == old(self).clipping(),
            final(self).staged() == old(self).staged(),
    {
        let scissor = if self.clipping {
            Some(scissor_box(target_height, bounds))
        } else {
            None
        };
        let changes = self.uniforms.update(
            Uniforms { transform: transformation, scale, target_height },
        );
        Frame::new(scissor, changes, instances.len())
    }

    /// Puts the vertex records of a chunk of `instances` together and
    /// returns their bytes, ready for upload.
    pub fn upload_data<'a>(&'a mut self, instances: &[layer::Quad], chunk: Chunk) -> (bytes:
        &'a [u8])
        requires
            chunk.start <= chunk.end <= instances.len(),
        ensures
            bytes@ == vertex_bytes(
                instances@.subrange(chunk.start as int, chunk.end as int),
                endianness(),
            ),
            final(self).staged() == vertex_words(
                vertices(instances@.subrange(chunk.start as int, chunk.end as int)),
            ),
            final(self).uniforms() == old(self).uniforms(),
            final(self).clipping() == old(self).clipping(),
    {
        let part = slice_subrange(instances, chunk.start, chunk.end);
        instances_to_slice(part, &mut self.instance_buffer)
    }
}

/// Every draw call draws the quad it is issued for: the command that
/// follows the upload of a chunk at a distance of `k + 1` is the draw call
/// that begins at vertex `4 * k`, and the four records from there on in the
/// uploaded data are those of the chunk's `k`-th instance.
pub proof fn lemma_draw_call_draws_instance(instances: Seq<layer::Quad>, chunk: Chunk, k: int)
    requires
        chunk.start <= chunk.end <= instances.len(),
        0 <= k < chunk.spec_len(),
    ensures
        chunk_commands(chunk)[0] == Command::Upload(chunk),
        chunk_commands(chunk)[k + 1] == (Command::DrawStrip { first: (4 * k) as i32, count: 4 }),
        vertices(instances.subrange(chunk.start as int, chunk.end as int)).subrange(
            4 * k,
            4 * k + 4,
        ) == vertices(seq![instances[chunk.start + k]]),
{
}

/// No upload is larger than the device buffer: the bytes of every chunk of
/// a frame fit the room that set-up gives the buffer, however many
/// instances the frame holds.
pub proof fn lemma_upload_fits_buffer(instances: Seq<layer::Quad>, j: int, order: Endian)
    requires
        instances.len() <= usize::MAX,
        0 <= j < chunks(instances.len() as usize).len(),
    ensures
        chunks(instances.len() as usize)[j].fits(instances.len() as usize),
        vertex_bytes(
            instances.subrange(
                chunks(instances.len() as usize)[j].start as int,
                chunks(instances.len() as usize)[j].end as int,
            ),
            order,
        ).len() <= buffer_bytes(MAX_INSTANCES),
        buffer_bytes(MAX_INSTANCES) <= i32::MAX,
{
    lemma_chunks(instances.len() as usize);
}

} // verus!
