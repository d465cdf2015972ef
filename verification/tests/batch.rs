use quad_renderer::batch::{first_vertex, next_chunk, Chunk, MAX_INSTANCES};
use quad_renderer::command::Command;
use quad_renderer::frame::Frame;
use quad_renderer::layer;
use quad_renderer::pipeline::Pipeline;
use quad_renderer::transformation::Transformation;
use quad_renderer::uniform::UniformChanges;

fn quads(count: usize) -> Vec<layer::Quad> {
    let quad = layer::Quad {
        position: [0; 2],
        size: [0; 2],
        color: [0; 4],
        border_color: [0; 4],
        border_radius: 0,
        border_width: 0,
    };
    vec![quad; count]
}

fn bounds() -> layer::Rectangle {
    layer::Rectangle { x: 0, y: 0, width: 800, height: 600 }
}

fn run(frame: &mut Frame) -> Vec<Command> {
    let mut commands = Vec::new();
    while let Some(command) = frame.next() {
        commands.push(command);
    }
    assert_eq!(frame.next(), None);
    commands
}

/// The chunks that a frame uploads, each with the draw calls that follow it.
fn chunks_drawn(commands: &[Command]) -> Vec<(Chunk, Vec<i32>)> {
    let mut chunks: Vec<(Chunk, Vec<i32>)> = Vec::new();
    for command in commands {
        match command {
            Command::Upload(chunk) => chunks.push((*chunk, Vec::new())),
            Command::DrawStrip { first, count } => {
                assert_eq!(*count, 4);
                chunks.last_mut().expect("a draw call follows an upload").1.push(*first);
            }
            _ => {}
        }
    }
    chunks
}

fn no_changes() -> UniformChanges {
    UniformChanges { transform: None, scale: None, target_height: None }
}

fn check_frame(total: usize) {
    let mut frame = Frame::new(None, no_changes(), total);
    let commands = run(&mut frame);
    let chunks = chunks_drawn(&commands);
    let draw_calls: usize = chunks.iter().map(|(_, draws)| draws.len()).sum();
    assert_eq!(draw_calls, total);
    assert_eq!(chunks.len(), (total + MAX_INSTANCES - 1) / MAX_INSTANCES);
    assert_eq!(chunks.is_empty(), total == 0);
    let mut start = 0;
    for (j, (chunk, draws)) in chunks.iter().enumerate() {
        assert_eq!(chunk.start, start);
        assert_eq!(chunk.start, j * MAX_INSTANCES);
        assert!(chunk.start < chunk.end);
        if j + 1 < chunks.len() {
            assert_eq!(chunk.len(), MAX_INSTANCES);
        } else {
            assert!(chunk.len() <= MAX_INSTANCES);
            assert_eq!(chunk.end, total);
        }
        let expected: Vec<i32> = (0..chunk.len() as i32).map(|k| 4 * k).collect();
        assert_eq!(draws, &expected);
        start = chunk.end;
    }
    assert_eq!(start, total);
    assert_eq!(
        &commands[..3],
        &[Command::UseProgram, Command::BindVertexArray, Command::BindBuffer][..]
    );
    assert_eq!(
        &commands[commands.len() - 2..],
        &[Command::UnbindVertexArray, Command::UnuseProgram][..]
    );
    assert_eq!(commands.len(), 5 + total + chunks.len());
}

#[test]
fn capacity_is_one_hundred_thousand() {
    assert_eq!(MAX_INSTANCES, 100_000);
}

#[test]
fn next_chunk_follows_the_frame() {
    assert_eq!(next_chunk(0, 0), None);
    assert_eq!(next_chunk(0, 1), Some(Chunk { start: 0, end: 1 }));
    assert_eq!(next_chunk(0, 100_000), Some(Chunk { start: 0, end: 100_000 }));
    assert_eq!(next_chunk(0, 100_001), Some(Chunk { start: 0, end: 100_000 }));
    assert_eq!(next_chunk(100_000, 100_001), Some(Chunk { start: 100_000, end: 100_001 }));
    assert_eq!(next_chunk(100_001, 100_001), None);
    assert_eq!(next_chunk(5, 3), None);
    assert_eq!(
        next_chunk(usize::MAX - 10, usize::MAX),
        Some(Chunk { start: usize::MAX - 10, end: usize::MAX })
    );
    assert_eq!(next_chunk(0, usize::MAX), Some(Chunk { start: 0, end: 100_000 }));
}

#[test]
fn chunk_length() {
    assert_eq!(Chunk { start: 3, end: 10 }.len(), 7);
    assert_eq!(Chunk { start: 4, end: 4 }.len(), 0);
}

#[test]
fn quads_take_four_vertices_each() {
    assert_eq!(first_vertex(0), 0);
    assert_eq!(first_vertex(1), 4);
    assert_eq!(first_vertex(99_999), 399_996);
}

#[test]
fn empty_frame_binds_and_unbinds_only() {
    let mut pipeline = Pipeline::new();
    let initial = pipeline.current_uniforms();
    let mut frame = pipeline.draw(
        initial.target_height,
        &[],
        initial.transform,
        initial.scale,
        bounds(),
    );
    assert_eq!(
        run(&mut frame),
        vec![
            Command::UseProgram,
            Command::BindVertexArray,
            Command::BindBuffer,
            Command::UnbindVertexArray,
            Command::UnuseProgram,
        ]
    );
}

#[test]
fn full_buffer_is_one_chunk() {
    let instances = quads(MAX_INSTANCES);
    let mut pipeline = Pipeline::new();
    let mut frame =
        pipeline.draw(0, &instances, Transformation::identity(), 1.0f32.to_bits(), bounds());
    let commands = run(&mut frame);
    let chunks = chunks_drawn(&commands);
    assert_eq!(chunks.len(), 1);
    assert_eq!(chunks[0].0, Chunk { start: 0, end: 100_000 });
    assert_eq!(chunks[0].1.len(), 100_000);
    let uploads = commands.iter().filter(|c| matches!(c, Command::Upload(_))).count();
    let draws = commands.iter().filter(|c| matches!(c, Command::DrawStrip { .. })).count();
    assert_eq!(uploads, 1);
    assert_eq!(draws, 100_000);
    assert_eq!(commands[3], Command::Upload(Chunk { start: 0, end: 100_000 }));
    assert_eq!(commands[4], Command::DrawStrip { first: 0, count: 4 });
    assert_eq!(commands[100_003], Command::DrawStrip { first: 399_996, count: 4 });
    assert_eq!(commands[100_004], Command::UnbindVertexArray);
}

#[test]
fn one_more_than_the_buffer_is_two_chunks() {
    let instances = quads(MAX_INSTANCES + 1);
    let mut pipeline = Pipeline::new();
    let mut frame =
        pipeline.draw(0, &instances, Transformation::identity(), 1.0f32.to_bits(), bounds());
    let commands = run(&mut frame);
    let chunks = chunks_drawn(&commands);
    assert_eq!(chunks.len(), 2);
    assert_eq!(chunks[0].0, Chunk { start: 0, end: 100_000 });
    assert_eq!(chunks[0].1.len(), 100_000);
    assert_eq!(chunks[1].0, Chunk { start: 100_000, end: 100_001 });
    assert_eq!(chunks[1].1, vec![0]);
    let draws = commands.iter().filter(|c| matches!(c, Command::DrawStrip { .. })).count();
    assert_eq!(draws, MAX_INSTANCES + 1);
    assert_eq!(commands[100_004], Command::Upload(Chunk { start: 100_000, end: 100_001 }));
    assert_eq!(commands[100_005], Command::DrawStrip { first: 0, count: 4 });
}

#[test]
fn frames_of_many_sizes() {
    for total in [0, 1, 2, 99_999, 100_000, 100_001, 199_999, 200_000, 200_001, 350_000] {
        check_frame(total);
    }
}

#[test]
fn exact_multiple_has_no_empty_chunk() {
    let mut frame = Frame::new(None, no_changes(), 3 * MAX_INSTANCES);
    let chunks = chunks_drawn(&run(&mut frame));
    let ranges: Vec<Chunk> = chunks.iter().map(|(chunk, _)| *chunk).collect();
    assert_eq!(
        ranges,
        vec![
            Chunk { start: 0, end: 100_000 },
            Chunk { start: 100_000, end: 200_000 },
            Chunk { start: 200_000, end: 300_000 },
        ]
    );
}

#[test]
fn small_frame_is_drawn_in_order() {
    let mut frame = Frame::new(None, no_changes(), 3);
    assert_eq!(
        run(&mut frame),
        vec![
            Command::UseProgram,
            Command::BindVertexArray,
            Command::BindBuffer,
            Command::Upload(Chunk { start: 0, end: 3 }),
            Command::DrawStrip { first: 0, count: 4 },
            Command::DrawStrip { first: 4, count: 4 },
            Command::DrawStrip { first: 8, count: 4 },
            Command::UnbindVertexArray,
            Command::UnuseProgram,
        ]
    );
}

#[test]
fn upload_data_holds_the_chunk_only() {
    let mut instances = quads(5);
    for (k, quad) in instances.iter_mut().enumerate() {
        quad.border_radius = (k as f32).to_bits();
    }
    let mut pipeline = Pipeline::new();
    let bytes = pipeline.upload_data(&instances, Chunk { start: 2, end: 4 }).to_vec();
    assert_eq!(bytes.len(), 2 * 4 * 64);
    for record in 0..8 {
        let at = record * 64 + 56;
        let radius = f32::from_ne_bytes([bytes[at], bytes[at + 1], bytes[at + 2], bytes[at + 3]]);
        assert_eq!(radius, (2 + record / 4) as f32);
    }
    let none = pipeline.upload_data(&instances, Chunk { start: 5, end: 5 }).to_vec();
    assert!(none.is_empty());
}
