//! The commands that the renderer asks of the graphics device.
//!
//! The library never touches the device. It says which command comes next;
//! the owner of the graphics context performs it.

use crate::attribute::Attribute;
use crate::batch::Chunk;
use crate::transformation::Transformation;
use crate::uniform::Uniform;
use vstd::prelude::*;

verus! {

/// The part of the target surface that drawing is restricted to, in device
/// coordinates: pixels, with the origin in the bottom-left corner.
#[derive(Clone, Copy, Debug, PartialEq, Eq, Structural)]
pub struct ScissorBox {
    /// Left edge.
    pub x: i32,
    /// Bottom edge.
    pub y: i32,
    /// Width.
    pub width: i32,
    /// Height.
    pub height: i32,
}

/// One command for the graphics device. "The program", "the vertex array"
/// and "the buffer" are the three device objects of the quad pipeline.
#[derive(Clone, Copy, Debug, PartialEq, Eq)]
pub enum Command {
    /// Compile the vertex and the fragment shader and link them into the
    /// program.
    BuildProgram,
    /// Look up the location of a uniform in the program.
    ResolveUniform(Uniform),
    /// Create the vertex array.
    CreateVertexArray,
    /// Create the buffer.
    CreateBuffer,
    /// Make the program the current one.
    UseProgram,
    /// Leave no program current.
    UnuseProgram,
    /// Bind the vertex array.
    BindVertexArray,
    /// Leave no vertex array bound.
    UnbindVertexArray,
    /// Bind the buffer as the array buffer.
    BindBuffer,
    /// Leave no array buffer bound.
    UnbindBuffer,
    /// Give the bound buffer room for so many bytes, to be rewritten often.
    AllocateBuffer {
        /// The size of the buffer in bytes.
        bytes: i32,
    },
    /// Switch on the vertex attribute at a location.
    EnableAttribute(u32),
    /// Describe a vertex attribute of single-precision numbers, not
    /// normalised, read from the bound buffer.
    AttributePointer(Attribute),
    /// Upload the transformation matrix, not transposed.
    SetTransform(Transformation),
    /// Upload the scale factor, given as the bits of the number.
    SetScale(u32),
    /// Upload the height of the target surface, given in pixels.
    SetScreenHeight(u32),
    /// Switch on the scissor test.
    EnableScissor,
    /// Restrict drawing to a part of the target surface.
    SetScissor(ScissorBox),
    /// Switch off the scissor test.
    DisableScissor,
    /// Write the vertex records of the chunk's instances to the start of
    /// the bound buffer, over what it held.
    Upload(Chunk),
    /// Draw a triangle strip of `count` vertices that begins at the vertex
    /// `first` of the buffer.
    DrawStrip {
        /// Index of the first vertex of the strip.
        first: i32,
        /// The number of vertices in the strip.
        count: i32,
    },
}

/// What is current on the device, as far as the quad pipeline changes it.
pub struct Device {
    /// The program is the current one.
    pub program: bool,
    /// The vertex array is bound.
    pub vertex_array: bool,
    /// The buffer is bound as the array buffer.
    pub buffer: bool,
    /// The scissor test is on.
    pub scissor: bool,
}

impl Device {
    /// A device on which nothing of the pipeline is current.
    pub open spec fn idle() -> Device {
        Device { program: false, vertex_array: false, buffer: false, scissor: false }
    }

    /// Whether the device is in a state in which the command does what it
    /// is meant to: a uniform goes to the current program, bytes go to the
    /// bound buffer, an attribute belongs to the bound vertex array and
    /// reads from the bound buffer, and a draw call uses the current program
    /// and the bound vertex array.
    pub open spec fn accepts(self, command: Command) -> bool {
        match command {
            Command::SetTransform(_) | Command::SetScale(_) | Command::SetScreenHeight(_) => {
                self.program
            },
            Command::AllocateBuffer { .. } | Command::Upload(_) => self.buffer,
            Command::EnableAttribute(_) => self.vertex_array,
            Command::AttributePointer(_) => self.vertex_array && self.buffer,
            Command::DrawStrip { .. } => self.program && self.vertex_array,
            _ => true,
        }
    }

    /// The device after the command.
    pub open spec fn after(self, command: Command) -> Device {
        match command {
            Command::UseProgram => Device { program: true, ..self },
            Command::UnuseProgram => Device { program: false, ..self },
            Command::BindVertexArray => Device { vertex_array: true, ..self },
            Command::UnbindVertexArray => Device { vertex_array: false, ..self },
            Command::BindBuffer => Device { buffer: true, ..self },
            Command::UnbindBuffer => Device { buffer: false, ..self },
            Command::EnableScissor => Device { scissor: true, ..self },
            Command::DisableScissor => Device { scissor: false, ..self },
            _ => self,
        }
    }

    /// The device after the commands, performed in order.
    pub open spec fn after_all(self, commands: Seq<Command>) -> Device
        decreases commands.len(),
    {
        if commands.len() == 0 {
            self
        } else {
            self.after(commands[0]).after_all(commands.drop_first())
        }
    }

    /// Whether the device accepts each of the commands at the time it is
    /// performed.
    pub open spec fn accepts_all(self, commands: Seq<Command>) -> bool
        decreases commands.len(),
    {
        commands.len() > 0 ==> self.accepts(commands[0]) && self.after(commands[0]).accepts_all(
            commands.drop_first(),
        )
    }
}

/// Performing two runs of commands one after the other is performing their
/// concatenation.
pub proof fn lemma_device_concat(device: Device, first: Seq<Command>, second: Seq<Command>)
    ensures
        device.after_all(first + second) == device.after_all(first).after_all(second),
        device.accepts_all(first + second) <==> device.accepts_all(first) && device.after_all(
            first,
        ).accepts_all(second),
    decreases first.len(),
{
    if first.len() > 0 {
        assert((first + second).drop_first() =~= first.drop_first() + second);
        lemma_device_concat(device.after(first[0]), first.drop_first(), second);
    }
}

} // verus!
