//! The commands of one frame, and the state machine that hands them out.
//!
//! A frame binds the pipeline's device objects, uploads the uniforms that
//! changed, draws the instances chunk by chunk, and unbinds again. The
//! binding and the unbinding happen for every frame, an empty one included.

use crate::batch::{
    chunks, chunks_from, first_vertex, lemma_chunks, next_chunk, Chunk, MAX_INSTANCES,
};
use crate::command::{lemma_device_concat, Command, Device, ScissorBox};
use crate::float::{is_nan, same_number};
use crate::layer::Rectangle;
use crate::uniform::{UniformChanges, Uniforms};
use vstd::prelude::*;

verus! {

/// The integer of the device nearest to `value`.
pub open spec fn clamped(value: int) -> i32 {
    if value > i32::MAX {
        i32::MAX
    } else if value < i32::MIN {
        i32::MIN
    } else {
        value as i32
    }
}

/// The scissor box for `bounds` on a target of the given height. The device
/// counts rows from the bottom, so the box begins below the rectangle's
/// lower edge, `target_height - (y + height)` rows up. A value outside the
/// device's integers is replaced by the nearest one.
pub open spec fn spec_scissor_box(target_height: u32, bounds: Rectangle) -> ScissorBox {
    ScissorBox {
        x: clamped(bounds.x as int),
        y: clamped(target_height - (bounds.y + bounds.height)),
        width: clamped(bounds.width as int),
        height: clamped(bounds.height as int),
    }
}

fn clamp(value: i64) -> (nearest: i32)
    ensures
        nearest == clamped(value as int),
{
    if value > 0x7FFF_FFFF {
        0x7FFF_FFFF
    } else if value < -0x8000_0000 {
        -0x8000_0000
    } else {
        value as i32
    }
}

/// The scissor box for `bounds` on a target of the given height.
#[verifier::when_used_as_spec(spec_scissor_box)]
pub fn scissor_box(target_height: u32, bounds: Rectangle) -> (scissor: ScissorBox)
    ensures
        scissor == spec_scissor_box(target_height, bounds),
{
    let lower: i64 = bounds.y as i64 + bounds.height as i64;
    ScissorBox {
        x: clamp(bounds.x as i64),
        y: clamp(target_height as i64 - lower),
        width: clamp(bounds.width as i64),
        height: clamp(bounds.height as i64),
    }
}

/// The sequence of at most one command.
pub open spec fn optional(command: Option<Command>) -> Seq<Command> {
    match command {
        Some(command) => seq![command],
        None => Seq::empty(),
    }
}

/// The draw calls `from..count` of a chunk: one triangle strip of four
/// vertices for each quad, the `k`-th beginning at vertex `4 * k`.
pub open spec fn draw_commands(from: int, count: int) -> Seq<Command> {
    Seq::new(
        (count - from) as nat,
        |k: int| Command::DrawStrip { first: (4 * (from + k)) as i32, count: 4 },
    )
}

/// The commands that draw one chunk: the upload of its vertex records,
/// then a draw call for each of its instances.
pub open spec fn chunk_commands(chunk: Chunk) -> Seq<Command> {
    seq![Command::Upload(chunk)] + draw_commands(0, chunk.spec_len())
}

/// The commands that draw a sequence of chunks.
pub open spec fn batch_commands(chunks: Seq<Chunk>) -> Seq<Command>
    decreases chunks.len(),
{
    if chunks.len() == 0 {
        Seq::empty()
    } else {
        chunk_commands(chunks[0]) + batch_commands(chunks.drop_first())
    }
}

/// The uploads of the uniforms that changed: matrix, scale, target height.
pub open spec fn uniform_commands(changes: UniformChanges) -> Seq<Command> {
    optional(
        match changes.transform {
            Some(transform) => Some(Command::SetTransform(transform)),
            None => None,
        },
    ) + optional(
        match changes.scale {
            Some(scale) => Some(Command::SetScale(scale)),
            None => None,
        },
    ) + optional(
        match changes.target_height {
            Some(height) => Some(Command::SetScreenHeight(height)),
            None => None,
        },
    )
}

/// The commands that restrict drawing to a scissor box, if there is one.
pub open spec fn scissor_on(scissor: Option<ScissorBox>) -> Seq<Command> {
    match scissor {
        Some(scissor) => seq![Command::EnableScissor, Command::SetScissor(scissor)],
        None => Seq::empty(),
    }
}

/// The command that lifts the restriction, if there was one.
pub open spec fn scissor_off(scissor: Option<ScissorBox>) -> Seq<Command> {
    match scissor {
        Some(_) => seq![Command::DisableScissor],
        None => Seq::empty(),
    }
}

/// The commands that open a frame: the scissor test goes on if the frame
/// has a scissor box, the pipeline's objects are bound, and the uniforms
/// that changed are uploaded to the program just made current.
pub open spec fn binding_commands(scissor: Option<ScissorBox>, changes: UniformChanges) -> Seq<
    Command,
> {
    scissor_on(scissor) + seq![
        Command::UseProgram,
        Command::BindVertexArray,
        Command::BindBuffer,
    ] + uniform_commands(changes)
}

/// The commands that close a frame: the vertex array and the program are
/// let go, and the scissor test goes off if the frame had switched it on.
pub open spec fn unbinding_commands(scissor: Option<ScissorBox>) -> Seq<Command> {
    seq![Command::UnbindVertexArray, Command::UnuseProgram] + scissor_off(scissor)
}

/// All commands of a frame of `total` instances, in order.
pub open spec fn frame_commands(
    scissor: Option<ScissorBox>,
    changes: UniformChanges,
    total: usize,
) -> Seq<Command> {
    binding_commands(scissor, changes) + batch_commands(chunks(total)) + unbinding_commands(
        scissor,
    )
}

/// The command at `position` among those that open a frame, if there are
/// that many.
fn binding_command(
    scissor: Option<ScissorBox>,
    changes: UniformChanges,
    position: usize,
) -> (command: Option<Command>)
    ensures
        command == (if position < binding_commands(scissor, changes).len() {
            Some(binding_commands(scissor, changes)[position as int])
        } else {
            None
        }),
{
    let mut at: usize = position;
    if let Some(scissor_box) = scissor {
        if at == 0 {
            return Some(Command::EnableScissor);
        }
        if at == 1 {
            return Some(Command::SetScissor(scissor_box));
        }
        at = at - 2;
    }
    if at == 0 {
        return Some(Command::UseProgram);
    }
    if at == 1 {
        return Some(Command::BindVertexArray);
    }
    if at == 2 {
        return Some(Command::BindBuffer);
    }
    at = at - 3;
    if let Some(transform) = changes.transform {
        if at == 0 {
            return Some(Command::SetTransform(transform));
        }
        at = at - 1;
    }
    if let Some(scale) = changes.scale {
        if at == 0 {
            return Some(Command::SetScale(scale));
        }
        at = at - 1;
    }
    if let Some(height) = changes.target_height {
        if at == 0 {
            return Some(Command::SetScreenHeight(height));
        }
    }
    None
}

/// The command at `position` among those that close a frame, if there are
/// that many.
fn unbinding_command(scissor: Option<ScissorBox>, position: usize) -> (command: Option<Command>)
    ensures
        command == (if position < unbinding_commands(scissor).len() {
            Some(unbinding_commands(scissor)[position as int])
        } else {
            None
        }),
{
    if position == 0 {
        Some(Command::UnbindVertexArray)
    } else if position == 1 {
        Some(Command::UnuseProgram)
    } else if position == 2 && scissor.is_some() {
        Some(Command::DisableScissor)
    } else {
        None
    }
}

/// What a frame is doing.
#[derive(Clone, Copy, Debug, PartialEq, Eq, Structural)]
enum Phase {
    /// Opening: `position` of the opening commands are handed out.
    Binding,
    /// Drawing the chunks.
    Drawing,
    /// Closing: `position` of the closing commands are handed out.
    Unbinding,
}

/// A frame that is being drawn: it knows which commands are still to be
/// performed and hands them out one by one.
#[derive(Debug)]
pub struct Frame {
    scissor: Option<ScissorBox>,
    changes: UniformChanges,
    total: usize,
    phase: Phase,
    /// How many commands of the phase were handed out, when opening or
    /// closing the frame.
    position: usize,
    /// Where the chunk that is being drawn starts.
    start: usize,
    /// Where the chunk that is being drawn ends; the instances before it
    /// are uploaded.
    end: usize,
    /// How many draw calls were handed out for the chunk.
    drawn: usize,
}

impl Frame {
    #[verifier::type_invariant]
    spec fn well_formed(self) -> bool {
        &&& self.start <= self.end <= self.total
        &&& self.end - self.start <= MAX_INSTANCES
        &&& self.drawn <= self.end - self.start
        &&& match self.phase {
            Phase::Binding => self.end == 0 && self.position <= binding_commands(
                self.scissor,
                self.changes,
            ).len(),
            Phase::Drawing => true,
            Phase::Unbinding => self.position <= unbinding_commands(self.scissor).len(),
        }
    }

    /// The commands that the frame has not handed out yet, in order.
    pub closed spec fn remaining(self) -> Seq<Command> {
        match self.phase {
            Phase::Binding => binding_commands(self.scissor, self.changes).skip(
                self.position as int,
            ) + batch_commands(chunks(self.total)) + unbinding_commands(self.scissor),
            Phase::Drawing => draw_commands(self.drawn as int, self.end - self.start)
                + batch_commands(chunks_from(self.end, self.total)) + unbinding_commands(
                self.scissor,
            ),
            Phase::Unbinding => unbinding_commands(self.scissor).skip(self.position as int),
        }
    }

    /// A frame of `total` instances of which nothing is drawn yet.
    pub fn new(scissor: Option<ScissorBox>, changes: UniformChanges, total: usize) -> (frame:
        Frame)
        ensures
            frame.remaining() == frame_commands(scissor, changes, total),
    {
        Frame {
            scissor,
            changes,
            total,
            phase: Phase::Binding,
            position: 0,
            start: 0,
            end: 0,
            drawn: 0,
        }
    }

    /// The next command of the opening of the frame; when there is none,
    /// the frame goes on to drawing.
    fn next_binding(&mut self) -> (command: Option<Command>)
        requires
            old(self).phase == Phase::Binding,
        ensures
            match command {
                Some(command) => old(self).remaining().len() > 0 && command == old(
                    self,
                ).remaining()[0] && final(self).remaining() == old(self).remaining().drop_first(),
                None => final(self).phase == Phase::Drawing && final(self).remaining() == old(
                    self,
                ).remaining(),
            },
    {
        proof {
            use_type_invariant(&*self);
        }
        match binding_command(self.scissor, self.changes, self.position) {
            Some(command) => {
                self.position = self.position + 1;
                Some(command)
            },
            None => {
                self.phase = Phase::Drawing;
                None
            },
        }
    }

    /// The next command of the drawing of the chunks; when there is none,
    /// the frame goes on to its closing.
    fn next_drawing(&mut self) -> (command: Option<Command>)
        requires
            old(self).phase == Phase::Drawing,
        ensures
            match command {
                Some(command) => old(self).remaining().len() > 0 && command == old(
                    self,
                ).remaining()[0] && final(self).remaining() == old(self).remaining().drop_first(),
                None => final(self).phase == Phase::Unbinding && final(self).remaining() == old(
                    self,
                ).remaining(),
            },
    {
        proof {
            use_type_invariant(&*self);
        }
        if self.drawn < self.end - self.start {
            let first = first_vertex(self.drawn);
            self.drawn = self.drawn + 1;
            return Some(Command::DrawStrip { first, count: 4 });
        }
        match next_chunk(self.end, self.total) {
            Some(chunk) => {
                assert(chunks_from(self.end, self.total).drop_first() =~= chunks_from(
                    chunk.end,
                    self.total,
                ));
                *self = Frame {
                    scissor: self.scissor,
                    changes: self.changes,
                    total: self.total,
                    phase: Phase::Drawing,
                    position: 0,
                    start: chunk.start,
                    end: chunk.end,
                    drawn: 0,
                };
                Some(Command::Upload(chunk))
            },
            None => {
                self.position = 0;
                self.phase = Phase::Unbinding;
                None
            },
        }
    }

    /// The next command of the closing of the frame, if any is left.
    fn next_unbinding(&mut self) -> (command: Option<Command>)
        requires
            old(self).phase == Phase::Unbinding,
        ensures
            match command {
                Some(command) => old(self).remaining().len() > 0 && command == old(
                    self,
                ).remaining()[0] && final(self).remaining() == old(self).remaining().drop_first(),
                None => old(self).remaining().len() == 0 && final(self).remaining().len() == 0,
            },
    {
        proof {
            use_type_invariant(&*self);
        }
        match unbinding_command(self.scissor, self.position) {
            Some(command) => {
                self.position = self.position + 1;
                Some(command)
            },
            None => None,
        }
    }

    /// Hands out the next command of the frame, or nothing when the frame
    /// is done.
    pub fn next(&mut self) -> (command: Option<Command>)
        ensures
            match command {
                Some(command) => old(self).remaining().len() > 0 && command == old(
                    self,
                ).remaining()[0] && final(self).remaining() == old(self).remaining().drop_first(),
                None => old(self).remaining().len() == 0 && final(self).remaining().len() == 0,
            },
    {
        if self.phase == Phase::Binding {
            if let Some(command) = self.next_binding() {
                return Some(command);
            }
        }
        if self.phase == Phase::Drawing {
            if let Some(command) = self.next_drawing() {
                return Some(command);
            }
        }
        self.next_unbinding()
    }
}

/// A frame drawn with the uniforms of the frame before it uploads no
/// uniform, provided that the matrix and the scale hold no NaN.
pub proof fn lemma_repeated_uniforms_upload_nothing(held: Uniforms, wanted: Uniforms)
    requires
        !wanted.transform.has_nan(),
        !is_nan(wanted.scale),
    ensures
        uniform_commands(held.with(held.changes_to(wanted)).changes_to(wanted)) == Seq::<
            Command,
        >::empty(),
{
}

/// A frame whose scale alone differs from what the device holds uploads the
/// scale and no other uniform.
pub proof fn lemma_changed_scale_uploads_scale(held: Uniforms, wanted: Uniforms)
    requires
        wanted.transform.same(held.transform),
        wanted.target_height == held.target_height,
        !same_number(wanted.scale, held.scale),
    ensures
        uniform_commands(held.changes_to(wanted)) == seq![Command::SetScale(wanted.scale)],
{
}

/// Draw calls change nothing that is bound, and the device accepts them
/// while the program is current and the vertex array is bound.
proof fn lemma_draw_commands_keep_device(device: Device, from: int, count: int)
    requires
        device.program,
        device.vertex_array,
        0 <= from <= count,
    ensures
        device.accepts_all(draw_commands(from, count)),
        device.after_all(draw_commands(from, count)) == device,
    decreases count - from,
{
    if from < count {
        lemma_draw_commands_keep_device(device, from + 1, count);
        assert(draw_commands(from, count).drop_first() =~= draw_commands(from + 1, count));
    }
}

/// Drawing chunks changes nothing that is bound, and the device accepts
/// every upload and every draw call while the pipeline is bound.
proof fn lemma_batch_commands_keep_device(device: Device, chunks: Seq<Chunk>)
    requires
        device.program,
        device.vertex_array,
        device.buffer,
        forall|j: int| 0 <= j < chunks.len() ==> (#[trigger] chunks[j]).start <= chunks[j].end,
    ensures
        device.accepts_all(batch_commands(chunks)),
        device.after_all(batch_commands(chunks)) == device,
    decreases chunks.len(),
{
    if chunks.len() > 0 {
        let first = chunks[0];
        let upload = seq![Command::Upload(first)];
        lemma_batch_commands_keep_device(device, chunks.drop_first());
        lemma_draw_commands_keep_device(device, 0, first.spec_len());
        assert(device.accepts_all(upload) && device.after_all(upload) == device) by {
            reveal_with_fuel(Device::accepts_all, 2);
            reveal_with_fuel(Device::after_all, 2);
        }
        lemma_device_concat(device, upload, draw_commands(0, first.spec_len()));
        lemma_device_concat(device, chunk_commands(first), batch_commands(chunks.drop_first()));
    }
}

/// Binding: the scissor test goes on if the frame has a scissor box, the
/// pipeline is bound, and the uniforms go to the program that was just made
/// current.
proof fn lemma_binding(device: Device, scissor: Option<ScissorBox>, changes: UniformChanges)
    ensures
        device.accepts_all(binding_commands(scissor, changes)),
        device.after_all(binding_commands(scissor, changes)) == (Device {
            program: true,
            vertex_array: true,
            buffer: true,
            scissor: scissor is Some || device.scissor,
        }),
{
    let clipped = Device { scissor: scissor is Some || device.scissor, ..device };
    let bound = Device { program: true, vertex_array: true, buffer: true, ..clipped };
    let binds = seq![Command::UseProgram, Command::BindVertexArray, Command::BindBuffer];
    assert(device.accepts_all(scissor_on(scissor)) && device.after_all(scissor_on(scissor))
        == clipped) by {
        reveal_with_fuel(Device::accepts_all, 3);
        reveal_with_fuel(Device::after_all, 3);
    }
    assert(clipped.accepts_all(binds) && clipped.after_all(binds) == bound) by {
        reveal_with_fuel(Device::accepts_all, 4);
        reveal_with_fuel(Device::after_all, 4);
    }
    assert(bound.accepts_all(uniform_commands(changes)) && bound.after_all(
        uniform_commands(changes),
    ) == bound) by {
        lemma_uniform_commands_keep_device(bound, changes);
    }
    lemma_device_concat(device, scissor_on(scissor), binds);
    lemma_device_concat(device, scissor_on(scissor) + binds, uniform_commands(changes));
}

/// Uploads of uniforms change nothing that is bound, and the device accepts
/// them while the program is current.
proof fn lemma_uniform_commands_keep_device(device: Device, changes: UniformChanges)
    requires
        device.program,
    ensures
        device.accepts_all(uniform_commands(changes)),
        device.after_all(uniform_commands(changes)) == device,
{
    let transform = optional(
        match changes.transform {
            Some(transform) => Some(Command::SetTransform(transform)),
            None => None,
        },
    );
    let scale = optional(
        match changes.scale {
            Some(scale) => Some(Command::SetScale(scale)),
            None => None,
        },
    );
    let height = optional(
        match changes.target_height {
            Some(height) => Some(Command::SetScreenHeight(height)),
            None => None,
        },
    );
    reveal_with_fuel(Device::accepts_all, 2);
    reveal_with_fuel(Device::after_all, 2);
    lemma_device_concat(device, transform, scale);
    lemma_device_concat(device, transform + scale, height);
}

/// Unbinding: the vertex array and the program are let go, and the scissor
/// test goes off if the frame had switched it on.
proof fn lemma_unbinding(device: Device, scissor: Option<ScissorBox>)
    ensures
        device.accepts_all(unbinding_commands(scissor)),
        device.after_all(unbinding_commands(scissor)) == (Device {
            program: false,
            vertex_array: false,
            buffer: device.buffer,
            scissor: if scissor is Some {
                false
            } else {
                device.scissor
            },
        }),
{
    let unbinds = seq![Command::UnbindVertexArray, Command::UnuseProgram];
    let unbound = Device { program: false, vertex_array: false, ..device };
    assert(device.accepts_all(unbinds) && device.after_all(unbinds) == unbound) by {
        reveal_with_fuel(Device::accepts_all, 3);
        reveal_with_fuel(Device::after_all, 3);
    }
    assert(unbound.accepts_all(scissor_off(scissor))) by {
        reveal_with_fuel(Device::accepts_all, 2);
    }
    assert(unbound.after_all(scissor_off(scissor)) == (Device {
        scissor: if scissor is Some {
            false
        } else {
            device.scissor
        },
        ..unbound
    })) by {
        reveal_with_fuel(Device::after_all, 2);
    }
    lemma_device_concat(device, unbinds, scissor_off(scissor));
}

/// Whatever was current on the device before, every command of a frame
/// finds the device in a state that it accepts: uniforms are uploaded, and
/// quads are drawn, only while the pipeline is bound. After the frame no
/// program is current and no vertex array is bound, and the scissor test is
/// off if the frame switched it on. This holds for every frame, the empty
/// one included.
pub proof fn lemma_frame_unbinds(
    device: Device,
    scissor: Option<ScissorBox>,
    changes: UniformChanges,
    total: usize,
)
    ensures
        device.accepts_all(frame_commands(scissor, changes, total)),
        device.after_all(frame_commands(scissor, changes, total)) == (Device {
            program: false,
            vertex_array: false,
            buffer: true,
            scissor: if scissor is Some {
                false
            } else {
                device.scissor
            },
        }),
{
    let binding = binding_commands(scissor, changes);
    let drawing = batch_commands(chunks(total));
    let unbinding = unbinding_commands(scissor);
    let bound = Device {
        program: true,
        vertex_array: true,
        buffer: true,
        scissor: scissor is Some || device.scissor,
    };
    lemma_binding(device, scissor, changes);
    lemma_chunks(total);
    lemma_batch_commands_keep_device(bound, chunks(total));
    lemma_unbinding(bound, scissor);
    lemma_device_concat(device, binding, drawing);
    lemma_device_concat(device, binding + drawing, unbinding);
}

} // verus!
