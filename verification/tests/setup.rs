use quad_renderer::attribute::{attribute, Attribute, ATTRIBUTE_COUNT};
use quad_renderer::command::Command;
use quad_renderer::setup::{create_instance_buffer, failure, setup, Setup, SetupError};
use quad_renderer::transformation::Transformation;
use quad_renderer::uniform::Uniform;

fn attribute_at(index: u32, size: i32, offset: i32) -> Attribute {
    Attribute { index, size, stride: 64, offset }
}

fn instance_buffer(bytes: i32) -> Vec<Command> {
    vec![
        Command::CreateVertexArray,
        Command::CreateBuffer,
        Command::BindVertexArray,
        Command::BindBuffer,
        Command::AllocateBuffer { bytes },
        Command::EnableAttribute(0),
        Command::AttributePointer(attribute_at(0, 2, 0)),
        Command::EnableAttribute(1),
        Command::AttributePointer(attribute_at(1, 2, 8)),
        Command::EnableAttribute(2),
        Command::AttributePointer(attribute_at(2, 2, 16)),
        Command::EnableAttribute(3),
        Command::AttributePointer(attribute_at(3, 4, 24)),
        Command::EnableAttribute(4),
        Command::AttributePointer(attribute_at(4, 4, 40)),
        Command::EnableAttribute(5),
        Command::AttributePointer(attribute_at(5, 1, 56)),
        Command::EnableAttribute(6),
        Command::AttributePointer(attribute_at(6, 1, 60)),
        Command::UnbindVertexArray,
        Command::UnbindBuffer,
    ]
}

fn program() -> Vec<Command> {
    vec![
        Command::BuildProgram,
        Command::ResolveUniform(Uniform::Transform),
        Command::ResolveUniform(Uniform::Scale),
        Command::ResolveUniform(Uniform::ScreenHeight),
        Command::UseProgram,
        Command::SetTransform(Transformation::identity()),
        Command::SetScale(1.0f32.to_bits()),
        Command::SetScreenHeight(0),
        Command::UnuseProgram,
    ]
}

#[test]
fn attributes_follow_the_record() {
    assert_eq!(ATTRIBUTE_COUNT, 7);
    let sizes = [2, 2, 2, 4, 4, 1, 1];
    let mut offset = 0;
    for index in 0..ATTRIBUTE_COUNT {
        let found = attribute(index);
        assert_eq!(found, attribute_at(index, sizes[index as usize], offset));
        offset += 4 * found.size;
    }
    assert_eq!(offset, 64);
}

#[test]
fn instance_buffer_for_one_quad() {
    assert_eq!(create_instance_buffer(1), instance_buffer(256));
}

#[test]
fn instance_buffer_without_room() {
    assert_eq!(create_instance_buffer(0), instance_buffer(0));
}

#[test]
fn instance_buffer_as_large_as_the_device_counts() {
    assert_eq!(create_instance_buffer(8_388_607), instance_buffer(2_147_483_392));
}

#[test]
fn setup_commands_in_order() {
    let mut expected = program();
    expected.extend(instance_buffer(100_000 * 4 * 64));
    assert_eq!(setup(), expected);
    assert_eq!(expected.len(), 30);
    assert_eq!(expected[13], Command::AllocateBuffer { bytes: 25_600_000 });
}

#[test]
fn setup_that_succeeds_performs_every_command() {
    let mut machine = Setup::new();
    let mut performed = Vec::new();
    while let Some(command) = machine.command() {
        performed.push(command);
        assert_eq!(machine.completed(true), Ok(()));
    }
    assert_eq!(performed, setup());
    assert_eq!(machine.command(), None);
    assert_eq!(machine.completed(true), Ok(()));
    assert_eq!(machine.completed(false), Ok(()));
    assert_eq!(machine.command(), None);
}

#[test]
fn finished_setup_gives_the_pipeline() {
    let mut machine = Setup::new();
    while machine.command().is_some() {
        assert_eq!(machine.completed(true), Ok(()));
    }
    let pipeline = machine.finish().expect("every command succeeded");
    assert_eq!(pipeline.current_uniforms().transform, Transformation::identity());
    assert_eq!(pipeline.current_uniforms().scale, 1.0f32.to_bits());
    assert_eq!(pipeline.current_uniforms().target_height, 0);
    assert!(!pipeline.is_clipping());
}

#[test]
fn unfinished_setup_gives_no_pipeline() {
    assert!(Setup::new().finish().is_none());
    let mut machine = Setup::new();
    for _ in 0..29 {
        assert_eq!(machine.completed(true), Ok(()));
    }
    assert_eq!(machine.command(), Some(Command::UnbindBuffer));
    assert!(machine.finish().is_none());
}

#[test]
fn failed_setup_gives_no_pipeline() {
    let mut machine = Setup::new();
    assert_eq!(machine.completed(true), Ok(()));
    assert_eq!(
        machine.completed(false),
        Err(SetupError::UniformLocation(Uniform::Transform))
    );
    assert_eq!(machine.command(), None);
    assert!(machine.finish().is_none());
}

#[test]
fn command_is_named_until_it_is_reported() {
    let machine = Setup::new();
    assert_eq!(machine.command(), Some(Command::BuildProgram));
    assert_eq!(machine.command(), Some(Command::BuildProgram));
}

fn fail_at(position: usize) -> (Vec<Command>, Result<(), SetupError>) {
    let mut machine = Setup::new();
    let mut performed = Vec::new();
    while let Some(command) = machine.command() {
        performed.push(command);
        let result = machine.completed(performed.len() != position + 1);
        if result.is_err() {
            assert_eq!(machine.command(), None);
            assert_eq!(machine.completed(true), Ok(()));
            assert_eq!(machine.command(), None);
            return (performed, result);
        }
    }
    (performed, Ok(()))
}

#[test]
fn each_failure_ends_the_setup_with_its_error() {
    let cases = [
        (0, SetupError::Program),
        (1, SetupError::UniformLocation(Uniform::Transform)),
        (2, SetupError::UniformLocation(Uniform::Scale)),
        (3, SetupError::UniformLocation(Uniform::ScreenHeight)),
        (9, SetupError::VertexArray),
        (10, SetupError::Buffer),
    ];
    for (position, error) in cases {
        let (performed, result) = fail_at(position);
        assert_eq!(result, Err(error));
        assert_eq!(performed, setup()[..position + 1].to_vec());
    }
}

#[test]
fn commands_without_a_result_cannot_fail() {
    let all = setup();
    for position in 0..all.len() {
        if [0, 1, 2, 3, 9, 10].contains(&position) {
            assert!(failure(all[position]).is_some());
        } else {
            assert_eq!(failure(all[position]), None);
            let (performed, result) = fail_at(position);
            assert_eq!(result, Ok(()));
            assert_eq!(performed, all);
        }
    }
}

#[test]
fn failures_by_command() {
    assert_eq!(failure(Command::BuildProgram), Some(SetupError::Program));
    assert_eq!(
        failure(Command::ResolveUniform(Uniform::Scale)),
        Some(SetupError::UniformLocation(Uniform::Scale))
    );
    assert_eq!(failure(Command::CreateVertexArray), Some(SetupError::VertexArray));
    assert_eq!(failure(Command::CreateBuffer), Some(SetupError::Buffer));
    assert_eq!(failure(Command::UseProgram), None);
    assert_eq!(failure(Command::DrawStrip { first: 0, count: 4 }), None);
}

#[test]
fn error_messages() {
    assert_eq!(SetupError::Program.message(), "Create program");
    assert_eq!(
        SetupError::UniformLocation(Uniform::Transform).message(),
        "Get transform location"
    );
    assert_eq!(SetupError::UniformLocation(Uniform::Scale).message(), "Get scale location");
    assert_eq!(
        SetupError::UniformLocation(Uniform::ScreenHeight).message(),
        "Get target height location"
    );
    assert_eq!(SetupError::VertexArray.message(), "Create vertex array");
    assert_eq!(SetupError::Buffer.message(), "Create instance buffer");
}
