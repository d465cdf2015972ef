//! Setting up the device for the quad pipeline.
//!
//! Set-up is a fixed run of commands: build the shader program, find its
//! uniforms and give them their first values, then create the vertex array
//! and the buffer and describe the vertex record. Some of the commands can
//! fail on the device. No failure is recovered from: the first one ends
//! the set-up.

use crate::attribute::{attribute, spec_attribute, ATTRIBUTE_COUNT};
use crate::batch::MAX_INSTANCES;
use crate::command::{lemma_device_concat, Command, Device};
use crate::pipeline::Pipeline;
use crate::quad::{QUAD_VERTICES, VERTEX_BYTES};
use crate::uniform::{Uniform, Uniforms};
use vstd::prelude::*;

verus! {

/// Why the device could not be set up.
#[derive(Clone, Copy, Debug, PartialEq, Eq, Structural)]
pub enum SetupError {
    /// A shader did not compile, or the program did not link.
    Program,
    /// The program has no uniform of the expected name.
    UniformLocation(Uniform),
    /// The device gave no vertex array.
    VertexArray,
    /// The device gave no buffer.
    Buffer,
}

impl SetupError {
    /// A short description of what failed.
    pub fn message(self) -> (message: &'static str)
        ensures
            message@ == (match self {
                SetupError::Program => "Create program"@,
                SetupError::UniformLocation(Uniform::Transform) => "Get transform location"@,
                SetupError::UniformLocation(Uniform::Scale) => "Get scale location"@,
                SetupError::UniformLocation(Uniform::ScreenHeight) => "Get target height location"@,
                SetupError::VertexArray => "Create vertex array"@,
                SetupError::Buffer => "Create instance buffer"@,
            }),
    {
        match self {
            SetupError::Program => "Create program",
            SetupError::UniformLocation(Uniform::Transform) => "Get transform location",
            SetupError::UniformLocation(Uniform::Scale) => "Get scale location",
            SetupError::UniformLocation(Uniform::ScreenHeight) => "Get target height location",
            SetupError::VertexArray => "Create vertex array",
            SetupError::Buffer => "Create instance buffer",
        }
    }
}

/// The error that a failure of the command is, for the commands that can
/// fail: those that ask the device for an object or a location.
pub open spec fn spec_failure(command: Command) -> Option<SetupError> {
    match command {
        Command::BuildProgram => Some(SetupError::Program),
        Command::ResolveUniform(uniform) => Some(SetupError::UniformLocation(uniform)),
        Command::CreateVertexArray => Some(SetupError::VertexArray),
        Command::CreateBuffer => Some(SetupError::Buffer),
        _ => None,
    }
}

/// The error that a failure of the command is, if the command can fail.
#[verifier::when_used_as_spec(spec_failure)]
pub fn failure(command: Command) -> (error: Option<SetupError>)
    ensures
        error == spec_failure(command),
{
    match command {
        Command::BuildProgram => Some(SetupError::Program),
        Command::ResolveUniform(uniform) => Some(SetupError::UniformLocation(uniform)),
        Command::CreateVertexArray => Some(SetupError::VertexArray),
        Command::CreateBuffer => Some(SetupError::Buffer),
        _ => None,
    }
}

/// The bytes that the vertex records of `size` quads take.
pub open spec fn buffer_bytes(size: usize) -> int {
    size * QUAD_VERTICES * VERTEX_BYTES
}

/// The commands that switch on and describe the first `count` vertex
/// attributes, one after the other.
pub open spec fn attribute_commands(count: int) -> Seq<Command>
    decreases count,
{
    if count <= 0 {
        Seq::empty()
    } else {
        attribute_commands(count - 1) + seq![
            Command::EnableAttribute((count - 1) as u32),
            Command::AttributePointer(spec_attribute((count - 1) as u32)),
        ]
    }
}

/// The commands that create the vertex array and a buffer for `size`
/// quads: both are created and bound, the buffer gets its room, every field
/// of the vertex record is described, and both are unbound again.
pub open spec fn instance_buffer_commands(size: usize) -> Seq<Command> {
    seq![
        Command::CreateVertexArray,
        Command::CreateBuffer,
        Command::BindVertexArray,
        Command::BindBuffer,
        Command::AllocateBuffer { bytes: buffer_bytes(size) as i32 },
    ] + attribute_commands(ATTRIBUTE_COUNT as int) + seq![
        Command::UnbindVertexArray,
        Command::UnbindBuffer,
    ]
}

/// The commands that build the program and give its uniforms the values
/// that a new pipeline takes the device to hold.
pub open spec fn program_commands() -> Seq<Command> {
    seq![
        Command::BuildProgram,
        Command::ResolveUniform(Uniform::Transform),
        Command::ResolveUniform(Uniform::Scale),
        Command::ResolveUniform(Uniform::ScreenHeight),
        Command::UseProgram,
        Command::SetTransform(Uniforms::initial().transform),
        Command::SetScale(Uniforms::initial().scale),
        Command::SetScreenHeight(Uniforms::initial().target_height),
        Command::UnuseProgram,
    ]
}

/// All commands of the set-up, in order. The buffer is made for
/// [`MAX_INSTANCES`] quads.
pub open spec fn setup_commands() -> Seq<Command> {
    program_commands() + instance_buffer_commands(MAX_INSTANCES)
}

/// The commands that create the vertex array and a buffer for `size` quads.
pub fn create_instance_buffer(size: usize) -> (commands: Vec<Command>)
    requires
        buffer_bytes(size) <= i32::MAX,
    ensures
        commands@ == instance_buffer_commands(size),
{
    let bytes: usize = size * QUAD_VERTICES * VERTEX_BYTES;
    let mut commands: Vec<Command> = Vec::new();
    commands.push(Command::CreateVertexArray);
    commands.push(Command::CreateBuffer);
    commands.push(Command::BindVertexArray);
    commands.push(Command::BindBuffer);
    commands.push(Command::AllocateBuffer { bytes: bytes as i32 });
    let ghost head = commands@;
    let mut index: u32 = 0;
    while index < ATTRIBUTE_COUNT
        invariant
            index <= ATTRIBUTE_COUNT,
            commands@ == head + attribute_commands(index as int),
        decreases ATTRIBUTE_COUNT - index,
    {
        commands.push(Command::EnableAttribute(index));
        commands.push(Command::AttributePointer(attribute(index)));
        index += 1;
    }
    commands.push(Command::UnbindVertexArray);
    commands.push(Command::UnbindBuffer);
    commands
}

/// All commands of the set-up, in order.
pub fn setup() -> (commands: Vec<Command>)
    ensures
        commands@ == setup_commands(),
{
    let initial = Uniforms::new();
    let mut commands: Vec<Command> = Vec::new();
    commands.push(Command::BuildProgram);
    commands.push(Command::ResolveUniform(Uniform::Transform));
    commands.push(Command::ResolveUniform(Uniform::Scale));
    commands.push(Command::ResolveUniform(Uniform::ScreenHeight));
    commands.push(Command::UseProgram);
    commands.push(Command::SetTransform(initial.transform));
    commands.push(Command::SetScale(initial.scale));
    commands.push(Command::SetScreenHeight(initial.target_height));
    commands.push(Command::UnuseProgram);
    let mut rest = create_instance_buffer(MAX_INSTANCES);
    commands.append(&mut rest);
    commands
}

/// What reporting the outcome of the first of the pending commands leads
/// to: the error of the command, if it failed and is one that can fail.
pub open spec fn outcome(pending: Seq<Command>, succeeded: bool) -> Result<(), SetupError> {
    if pending.len() > 0 && !succeeded && spec_failure(pending[0]) is Some {
        Err(spec_failure(pending[0])->Some_0)
    } else {
        Ok(())
    }
}

/// A set-up in progress: it names the command to perform and takes the
/// report of how the command went.
#[derive(Debug)]
pub struct Setup {
    commands: Vec<Command>,
    position: usize,
    failed: bool,
}

impl Setup {
    #[verifier::type_invariant]
    spec fn well_formed(self) -> bool {
        self.position <= self.commands@.len()
    }

    /// The commands that are still to be performed, in order. After a
    /// failure there are none.
    pub closed spec fn pending(self) -> Seq<Command> {
        if self.failed {
            Seq::empty()
        } else {
            self.commands@.skip(self.position as int)
        }
    }

    /// Whether a command has failed.
    pub closed spec fn failed(self) -> bool {
        self.failed
    }

    /// A set-up of which nothing is done yet.
    pub fn new() -> (setup: Setup)
        ensures
            setup.pending() == setup_commands(),
            !setup.failed(),
    {
        let commands = setup();
        Setup { commands, position: 0, failed: false }
    }

    /// The command to perform now, or nothing when the set-up is complete
    /// or has failed.
    pub fn command(&self) -> (command: Option<Command>)
        ensures
            command == (if self.pending().len() > 0 {
                Some(self.pending()[0])
            } else {
                None
            }),
    {
        proof {
            use_type_invariant(self);
        }
        if self.failed || self.position >= self.commands.len() {
            None
        } else {
            Some(self.commands[self.position])
        }
    }

    /// Takes the report on the command that [`Setup::command`] named.
    /// Success moves on to the next command. A failure of a command that
    /// can fail ends the set-up with the command's error; of the other
    /// commands the device reports nothing, and they count as done. With no
    /// command pending there is nothing to report on, and nothing changes.
    pub fn completed(&mut self, succeeded: bool) -> (result: Result<(), SetupError>)
        ensures
            result == outcome(old(self).pending(), succeeded),
            final(self).pending() == (if result is Ok && old(self).pending().len() > 0 {
                old(self).pending().drop_first()
            } else {
                Seq::empty()
            }),
            final(self).failed() == (old(self).failed() || result is Err),
    {
        proof {
            use_type_invariant(&*self);
        }
        if self.failed || self.position >= self.commands.len() {
            return Ok(());
        }
        let command = self.commands[self.position];
        if !succeeded {
            if let Some(error) = failure(command) {
                self.failed = true;
                return Err(error);
            }
        }
        self.position = self.position + 1;
        Ok(())
    }

    /// Ends the set-up. The pipeline exists exactly when every command was
    /// performed and none failed; there is no pipeline on a device that is
    /// set up in part.
    pub fn finish(self) -> (pipeline: Option<Pipeline>)
        ensures
            pipeline is Some <==> !self.failed() && self.pending().len() == 0,
            pipeline matches Some(pipeline) ==> {
                &&& pipeline.uniforms() == Uniforms::initial()
                &&& pipeline.staged() == Seq::<u32>::empty()
                &&& !pipeline.clipping()
            },
    {
        proof {
            use_type_invariant(&self);
        }
        if self.failed || self.position < self.commands.len() {
            None
        } else {
            Some(Pipeline::new())
        }
    }
}

/// Describing attributes changes nothing that is bound, and the device
/// accepts it while the vertex array and the buffer are bound.
proof fn lemma_attribute_commands_keep_device(device: Device, count: int)
    requires
        device.vertex_array,
        device.buffer,
    ensures
        device.accepts_all(attribute_commands(count)),
        device.after_all(attribute_commands(count)) == device,
    decreases count,
{
    if count > 0 {
        lemma_attribute_commands_keep_device(device, count - 1);
        let last = seq![
            Command::EnableAttribute((count - 1) as u32),
            Command::AttributePointer(spec_attribute((count - 1) as u32)),
        ];
        reveal_with_fuel(Device::accepts_all, 3);
        reveal_with_fuel(Device::after_all, 3);
        lemma_device_concat(device, attribute_commands(count - 1), last);
    }
}

/// Set-up runs on a device on which nothing of the pipeline is current,
/// gives every command a device that accepts it, and leaves the device as
/// it found it: no program current, no vertex array and no buffer bound.
pub proof fn lemma_setup_leaves_device_idle()
    ensures
        Device::idle().accepts_all(setup_commands()),
        Device::idle().after_all(setup_commands()) == Device::idle(),
{
    let idle = Device::idle();
    let bound = Device { vertex_array: true, buffer: true, ..idle };
    let program = program_commands();
    let head = seq![
        Command::CreateVertexArray,
        Command::CreateBuffer,
        Command::BindVertexArray,
        Command::BindBuffer,
        Command::AllocateBuffer { bytes: buffer_bytes(MAX_INSTANCES) as i32 },
    ];
    let attributes = attribute_commands(ATTRIBUTE_COUNT as int);
    let tail = seq![Command::UnbindVertexArray, Command::UnbindBuffer];
    assert(idle.accepts_all(program) && idle.after_all(program) == idle) by {
        reveal_with_fuel(Device::accepts_all, 10);
        reveal_with_fuel(Device::after_all, 10);
    }
    assert(idle.accepts_all(head) && idle.after_all(head) == bound) by {
        reveal_with_fuel(Device::accepts_all, 6);
        reveal_with_fuel(Device::after_all, 6);
    }
    lemma_attribute_commands_keep_device(bound, ATTRIBUTE_COUNT as int);
    assert(bound.accepts_all(tail) && bound.after_all(tail) == idle) by {
        reveal_with_fuel(Device::accepts_all, 3);
        reveal_with_fuel(Device::after_all, 3);
    }
    lemma_device_concat(idle, head, attributes);
    lemma_device_concat(idle, head + attributes, tail);
    lemma_device_concat(idle, program, head + attributes + tail);
}

} // verus!
