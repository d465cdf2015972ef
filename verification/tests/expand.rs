use quad_renderer::float::{ONE, ZERO};
use quad_renderer::layer;
use quad_renderer::quad::{
    instances_to_slice, Quad, POSITIONS, QUAD_VERTICES, VERTEX_BYTES, VERTEX_WORDS, WORD_BYTES,
};

fn instance(seed: f32) -> layer::Quad {
    layer::Quad {
        position: [seed.to_bits(), (seed + 1.0).to_bits()],
        size: [(seed + 2.0).to_bits(), (seed + 3.0).to_bits()],
        color: [
            (seed + 4.0).to_bits(),
            (seed + 5.0).to_bits(),
            (seed + 6.0).to_bits(),
            (seed + 7.0).to_bits(),
        ],
        border_color: [
            (seed + 8.0).to_bits(),
            (seed + 9.0).to_bits(),
            (seed + 10.0).to_bits(),
            (seed + 11.0).to_bits(),
        ],
        border_radius: (seed + 12.0).to_bits(),
        border_width: (seed + 13.0).to_bits(),
    }
}

fn numbers(bytes: &[u8]) -> Vec<f32> {
    assert_eq!(bytes.len() % 4, 0);
    let mut out = Vec::new();
    let mut i = 0;
    while i < bytes.len() {
        out.push(f32::from_ne_bytes([bytes[i], bytes[i + 1], bytes[i + 2], bytes[i + 3]]));
        i += 4;
    }
    out
}

#[test]
fn layout_constants() {
    assert_eq!(VERTEX_WORDS, 16);
    assert_eq!(WORD_BYTES, 4);
    assert_eq!(VERTEX_BYTES, 64);
    assert_eq!(VERTEX_BYTES, VERTEX_WORDS * WORD_BYTES);
    assert_eq!(QUAD_VERTICES, 4);
}

#[test]
fn positions_are_the_corners_of_the_unit_square() {
    assert_eq!(ZERO, 0.0f32.to_bits());
    assert_eq!(ONE, 1.0f32.to_bits());
    let corners: Vec<[f32; 2]> = POSITIONS
        .iter()
        .map(|corner| [f32::from_bits(corner[0]), f32::from_bits(corner[1])])
        .collect();
    assert_eq!(corners, vec![[0.0, 0.0], [0.0, 1.0], [1.0, 0.0], [1.0, 1.0]]);
}

#[test]
fn vertex_copies_the_instance_beside_the_corner() {
    let quad = instance(3.0);
    let vertex = Quad::from(&quad, POSITIONS[2]);
    assert_eq!(vertex.q_pos, POSITIONS[2]);
    assert_eq!(vertex.i_pos, quad.position);
    assert_eq!(vertex.i_scale, quad.size);
    assert_eq!(vertex.color, quad.color);
    assert_eq!(vertex.border_color, quad.border_color);
    assert_eq!(vertex.border_radius, quad.border_radius);
    assert_eq!(vertex.border_width, quad.border_width);
}

#[test]
fn vertex_is_written_field_after_field() {
    let quad = instance(20.0);
    let vertex = Quad::from(&quad, POSITIONS[3]);
    let mut buffer = vec![7u32];
    vertex.write_to(&mut buffer);
    assert_eq!(buffer.len(), 1 + VERTEX_WORDS);
    assert_eq!(buffer[0], 7);
    let written: Vec<f32> = buffer[1..].iter().map(|bits| f32::from_bits(*bits)).collect();
    assert_eq!(
        written,
        vec![
            1.0, 1.0, 20.0, 21.0, 22.0, 23.0, 24.0, 25.0, 26.0, 27.0, 28.0, 29.0, 30.0, 31.0,
            32.0, 33.0
        ]
    );
}

#[test]
fn no_instances_give_no_bytes() {
    let mut buffer = vec![1u32, 2, 3];
    let bytes = instances_to_slice(&[], &mut buffer).to_vec();
    assert!(bytes.is_empty());
    assert!(buffer.is_empty());
}

#[test]
fn single_instance_expands_to_four_records() {
    let quad = layer::Quad {
        position: [10.0f32.to_bits(), 20.0f32.to_bits()],
        size: [5.0f32.to_bits(), 5.0f32.to_bits()],
        color: [1.0f32.to_bits(), 0.0f32.to_bits(), 0.0f32.to_bits(), 1.0f32.to_bits()],
        border_color: [0.0f32.to_bits(); 4],
        border_radius: 2.0f32.to_bits(),
        border_width: 1.0f32.to_bits(),
    };
    let mut buffer = Vec::new();
    let bytes = instances_to_slice(&[quad], &mut buffer).to_vec();
    assert_eq!(bytes.len(), 4 * 64);
    let values = numbers(&bytes);
    let corners = [[0.0f32, 0.0], [0.0, 1.0], [1.0, 0.0], [1.0, 1.0]];
    for (record, corner) in corners.iter().enumerate() {
        let at = record * 16;
        assert_eq!(&values[at..at + 2], &corner[..]);
        assert_eq!(
            &values[at + 2..at + 16],
            &[10.0, 20.0, 5.0, 5.0, 1.0, 0.0, 0.0, 1.0, 0.0, 0.0, 0.0, 0.0, 2.0, 1.0][..]
        );
    }
    for record in 1..4 {
        assert_eq!(values[2..16], values[record * 16 + 2..record * 16 + 16]);
        assert_ne!(values[0..2], values[record * 16..record * 16 + 2]);
    }
}

#[test]
fn expansion_keeps_length_and_order() {
    let instances: Vec<layer::Quad> = (0..5).map(|k| instance(100.0 * k as f32)).collect();
    let mut buffer = Vec::new();
    let bytes = instances_to_slice(&instances, &mut buffer).to_vec();
    assert_eq!(buffer.len(), 4 * 5 * VERTEX_WORDS);
    assert_eq!(bytes.len(), 4 * 5 * VERTEX_BYTES);
    for (k, quad) in instances.iter().enumerate() {
        for (corner, q_pos) in POSITIONS.iter().enumerate() {
            let mut expected = Vec::new();
            Quad::from(quad, *q_pos).write_to(&mut expected);
            let at = (4 * k + corner) * VERTEX_WORDS;
            assert_eq!(&buffer[at..at + VERTEX_WORDS], &expected[..]);
        }
    }
}

#[test]
fn records_of_an_instance_stand_at_its_byte_offset() {
    let instances: Vec<layer::Quad> = (0..3).map(|k| instance(50.0 * k as f32)).collect();
    let mut buffer = Vec::new();
    let all = instances_to_slice(&instances, &mut buffer).to_vec();
    for (n, quad) in instances.iter().enumerate() {
        let mut scratch = Vec::new();
        let alone = instances_to_slice(&[*quad], &mut scratch).to_vec();
        let at = n * 4 * VERTEX_BYTES;
        assert_eq!(&all[at..at + 4 * VERTEX_BYTES], &alone[..]);
    }
}

#[test]
fn bytes_are_the_numbers_in_memory_order() {
    let quad = instance(0.5);
    let mut buffer = Vec::new();
    let bytes = instances_to_slice(&[quad], &mut buffer).to_vec();
    let mut expected = Vec::new();
    for word in &buffer {
        expected.extend_from_slice(&word.to_ne_bytes());
    }
    assert_eq!(bytes, expected);
    assert_eq!(&bytes[8..12], &0.5f32.to_ne_bytes()[..]);
    assert_eq!(&bytes[60..64], &13.5f32.to_ne_bytes()[..]);
}

#[test]
fn expanding_twice_gives_the_same_bytes() {
    let instances: Vec<layer::Quad> = (0..7).map(|k| instance(k as f32)).collect();
    let mut buffer = Vec::new();
    let first = instances_to_slice(&instances, &mut buffer).to_vec();
    let second = instances_to_slice(&instances, &mut buffer).to_vec();
    assert_eq!(first, second);
    let mut used = vec![9u32; 1000];
    let third = instances_to_slice(&instances, &mut used).to_vec();
    assert_eq!(first, third);
}

#[test]
fn numbers_pass_through_unread() {
    let mut quad = instance(1.0);
    quad.color = [f32::NAN.to_bits(), f32::INFINITY.to_bits(), (-0.0f32).to_bits(), 0x7FC0_1234];
    let mut buffer = Vec::new();
    instances_to_slice(&[quad], &mut buffer);
    for record in 0..4 {
        assert_eq!(&buffer[record * 16 + 6..record * 16 + 10], &quad.color[..]);
    }
}
