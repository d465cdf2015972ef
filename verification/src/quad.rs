//! The vertex record of a quad, and the expansion of quads into records.
//!
//! The device draws a quad as a strip of four vertices. Without instancing
//! every vertex carries the whole quad beside its own corner, so each quad
//! becomes four records of [`VERTEX_WORDS`] numbers.

use crate::float::{ONE, ZERO};
use crate::layer;
use vstd::endian::{endianness, Endian};
use vstd::prelude::*;

verus! {

/// The numbers in one vertex record.
pub const VERTEX_WORDS: usize = 16;

/// The bytes of one number.
pub const WORD_BYTES: usize = 4;

/// The bytes of one vertex record.
pub const VERTEX_BYTES: usize = 64;

/// The vertices drawn for one quad.
pub const QUAD_VERTICES: usize = 4;

/// The corners of the unit square in the order in which a quad's vertices
/// are stored: (0, 0), (0, 1), (1, 0), (1, 1).
pub const POSITIONS: [[u32; 2]; 4] = [[ZERO, ZERO], [ZERO, ONE], [ONE, ZERO], [ONE, ONE]];

/// One vertex of a quad as the device reads it: the corner it stands for,
/// followed by the quad it belongs to.
#[derive(Clone, Copy, Debug, PartialEq, Eq)]
pub struct Quad {
    /// The corner of the unit square.
    pub q_pos: [u32; 2],
    /// The quad's position.
    pub i_pos: [u32; 2],
    /// The quad's size.
    pub i_scale: [u32; 2],
    /// The quad's fill colour.
    pub color: [u32; 4],
    /// The quad's border colour.
    pub border_color: [u32; 4],
    /// The quad's corner radius.
    pub border_radius: u32,
    /// The quad's border width.
    pub border_width: u32,
}

impl Quad {
    /// The vertex of `layer` at the corner `q_pos`.
    pub open spec fn spec_from(layer: layer::Quad, q_pos: [u32; 2]) -> Quad {
        Quad {
            q_pos,
            i_pos: layer.position,
            i_scale: layer.size,
            color: layer.color,
            border_color: layer.border_color,
            border_radius: layer.border_radius,
            border_width: layer.border_width,
        }
    }

    /// The vertex of `layer` at the corner `q_pos`.
    pub fn from(layer: &layer::Quad, q_pos: [u32; 2]) -> (vertex: Quad)
        ensures
            vertex == Self::spec_from(*layer, q_pos),
    {
        Quad {
            q_pos,
            i_pos: layer.position,
            i_scale: layer.size,
            color: layer.color,
            border_color: layer.border_color,
            border_radius: layer.border_radius,
            border_width: layer.border_width,
        }
    }

    /// The record as the device reads it: the fields one after another,
    /// without gaps.
    pub open spec fn words(self) -> Seq<u32> {
        self.q_pos@ + self.i_pos@ + self.i_scale@ + self.color@ + self.border_color@
            + seq![self.border_radius, self.border_width]
    }

    /// Appends the record to `buffer`.
    pub fn write_to(&self, buffer: &mut Vec<u32>)
        ensures
            final(buffer)@ == old(buffer)@ + self.words(),
            self.words().len() == VERTEX_WORDS,
    {
        buffer.push(self.q_pos[0]);
        buffer.push(self.q_pos[1]);
        buffer.push(self.i_pos[0]);
        buffer.push(self.i_pos[1]);
        buffer.push(self.i_scale[0]);
        buffer.push(self.i_scale[1]);
        buffer.push(self.color[0]);
        buffer.push(self.color[1]);
        buffer.push(self.color[2]);
        buffer.push(self.color[3]);
        buffer.push(self.border_color[0]);
        buffer.push(self.border_color[1]);
        buffer.push(self.border_color[2]);
        buffer.push(self.border_color[3]);
        buffer.push(self.border_radius);
        buffer.push(self.border_width);
    }
}

/// The vertex records of `instances`: four for each instance, in the order
/// of the instances, the corners of each in the order of [`POSITIONS`].
pub open spec fn vertices(instances: Seq<layer::Quad>) -> Seq<Quad> {
    Seq::new(
        4 * instances.len(),
        |i: int| Quad::spec_from(instances[i / 4], POSITIONS[i % 4]),
    )
}

/// The numbers of a sequence of records, record after record.
pub open spec fn vertex_words(records: Seq<Quad>) -> Seq<u32> {
    Seq::new(16 * records.len(), |i: int| records[i / 16].words()[i % 16])
}

/// The four bytes of a number in memory, in the given byte order.
pub open spec fn word_bytes(word: u32, order: Endian) -> Seq<u8> {
    match order {
        Endian::Little => seq![
            (word % 0x100) as u8,
            (word / 0x100 % 0x100) as u8,
            (word / 0x1_0000 % 0x100) as u8,
            (word / 0x100_0000) as u8,
        ],
        Endian::Big => seq![
            (word / 0x100_0000) as u8,
            (word / 0x1_0000 % 0x100) as u8,
            (word / 0x100 % 0x100) as u8,
            (word % 0x100) as u8,
        ],
    }
}

/// The bytes of a sequence of numbers in memory, number after number.
pub open spec fn bytes_of(words: Seq<u32>, order: Endian) -> Seq<u8> {
    Seq::new(4 * words.len(), |i: int| word_bytes(words[i / 4], order)[i % 4])
}

/// What a buffer holds once `instances` were expanded into it: nothing of
/// what it held before, and the numbers of their vertex records.
pub open spec fn expanded_into(buffer: Seq<u32>, instances: Seq<layer::Quad>) -> Seq<u32> {
    buffer.take(0) + vertex_words(vertices(instances))
}

/// The bytes that are uploaded for `instances`.
pub open spec fn vertex_bytes(instances: Seq<layer::Quad>, order: Endian) -> Seq<u8> {
    bytes_of(vertex_words(vertices(instances)), order)
}

/// Views the numbers as the bytes they occupy in memory.
///
/// Calls `bytemuck::cast_slice` from `u32` to `u8`. That cast cannot fail:
/// a byte has no alignment to meet and any number of bytes is a whole number
/// of `u8`. The result is the same memory, so it is four times as long and
/// holds each number's bytes in the byte order of the machine.
#[verifier::external_body]
fn cast_words(words: &[u32]) -> (bytes: &[u8])
    ensures
        bytes@ == bytes_of(words@, endianness()),
{
    bytemuck::cast_slice(words)
}

/// Fills `buffer` with the vertex records of `instances` and returns the
/// buffer's memory for upload.
///
/// Whatever the buffer held before is dropped, so the result depends on the
/// instances alone; its room is kept, so a buffer that was large enough once
/// is not allocated again. The records stand in the order of the instances:
/// the records of instance `n` begin `n * 4 * VERTEX_BYTES` bytes into the
/// result.
pub fn instances_to_slice<'a>(instances: &[layer::Quad], buffer: &'a mut Vec<u32>) -> (bytes:
    &'a [u8])
    ensures
        final(buffer)@ == expanded_into(old(buffer)@, instances@),
        final(buffer)@ == vertex_words(vertices(instances@)),
        bytes@ == bytes_of(final(buffer)@, endianness()),
        bytes@ == vertex_bytes(instances@, endianness()),
{
    buffer.clear();
    let mut i: usize = 0;
    while i < instances.len()
        invariant
            i <= instances.len(),
            buffer@ == vertex_words(vertices(instances@).take(4 * i)),
        decreases instances.len() - i,
    {
        let mut corner: usize = 0;
        while corner < 4
            invariant
                i < instances.len(),
                corner <= 4,
                buffer@ == vertex_words(vertices(instances@).take(4 * i + corner)),
            decreases 4 - corner,
        {
            let vertex = Quad::from(&instances[i], POSITIONS[corner]);
            vertex.write_to(buffer);
            corner += 1;
        }
        i += 1;
    }
    cast_words(buffer.as_slice())
}

/// Expanding is idempotent: what the buffer held before leaves no trace, so
/// expanding the same instances a second time, into the buffer that the
/// first expansion left or into any other, gives the same numbers and the
/// same bytes.
pub proof fn lemma_expansion_is_idempotent(
    buffer: Seq<u32>,
    other: Seq<u32>,
    instances: Seq<layer::Quad>,
    order: Endian,
)
    ensures
        expanded_into(expanded_into(buffer, instances), instances) == expanded_into(
            buffer,
            instances,
        ),
        expanded_into(other, instances) == expanded_into(buffer, instances),
        bytes_of(expanded_into(other, instances), order) == bytes_of(
            expanded_into(buffer, instances),
            order,
        ),
        bytes_of(expanded_into(buffer, instances), order) == vertex_bytes(instances, order),
{
}

/// Expansion keeps length and order: `n` instances give `4 * n` records,
/// and the records `4 * k .. 4 * k + 4` are those of instance `k`, one for
/// each corner of the unit square in the order (0, 0), (0, 1), (1, 0),
/// (1, 1); they differ in nothing but the corner.
pub proof fn lemma_vertices(instances: Seq<layer::Quad>)
    ensures
        vertices(instances).len() == 4 * instances.len(),
        forall|k: int, corner: int|
            0 <= k < instances.len() && 0 <= corner < 4 ==> #[trigger] vertices(instances)[4 * k
                + corner] == Quad::spec_from(instances[k], POSITIONS[corner]),
        POSITIONS[0]@ == seq![ZERO, ZERO],
        POSITIONS[1]@ == seq![ZERO, ONE],
        POSITIONS[2]@ == seq![ONE, ZERO],
        POSITIONS[3]@ == seq![ONE, ONE],
{
}

/// In the uploaded bytes the records of instance `k` stand at the byte
/// offset `k * 4 * VERTEX_BYTES`, and they are the bytes that the instance
/// expands to on its own.
pub proof fn lemma_instance_offset(instances: Seq<layer::Quad>, k: int, order: Endian)
    requires
        0 <= k < instances.len(),
    ensures
        vertex_bytes(instances, order).len() == instances.len() * QUAD_VERTICES * VERTEX_BYTES,
        vertex_bytes(instances, order).subrange(
            k * QUAD_VERTICES * VERTEX_BYTES,
            (k + 1) * QUAD_VERTICES * VERTEX_BYTES,
        ) == vertex_bytes(seq![instances[k]], order),
{
}

} // verus!
