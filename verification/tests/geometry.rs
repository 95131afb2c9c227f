use frame_loop::vertex_lib::{
    index_bytes, num_indices, num_vertices, vertices, Vertex, COORDINATES, INDICES,
    POSITION_WORDS, VERTEX_COUNT, WORDS_PER_VERTEX, WORD_BYTES,
};
use wgpu::{VertexAttribute, VertexBufferLayout, VertexFormat, VertexStepMode};

fn corner(v: &Vertex) -> ([f32; 3], [f32; 2]) {
    (
        [
            f32::from_bits(v.position[0]),
            f32::from_bits(v.position[1]),
            f32::from_bits(v.position[2]),
        ],
        [f32::from_bits(v.tex_coordinates[0]), f32::from_bits(v.tex_coordinates[1])],
    )
}

#[test]
fn vertices_are_the_five_corners() {
    let table = vertices();
    assert_eq!(table.len(), 5);
    assert_eq!(corner(&table[0]), ([-0.0868241, 0.49240386, 0.0], [9.4131759, 0.99240386]));
    assert_eq!(corner(&table[1]), ([-0.49513406, 0.06958647, 0.0], [0.0048659444, 0.56958647]));
    assert_eq!(corner(&table[2]), ([-0.21918549, -0.44939706, 0.0], [0.28081453, 0.05060294]));
    assert_eq!(corner(&table[3]), ([0.35966998, -0.3473291, 0.0], [0.85967, 0.1526709]));
    assert_eq!(corner(&table[4]), ([0.44147372, 0.2347359, 0.0], [0.9414737, 0.7347359]));
}

#[test]
fn vertices_follow_the_coordinate_table() {
    let table = vertices();
    assert_eq!(table.len(), VERTEX_COUNT);
    assert_eq!(COORDINATES.len(), VERTEX_COUNT * WORDS_PER_VERTEX);
    for (i, v) in table.iter().enumerate() {
        let at = i * WORDS_PER_VERTEX;
        assert_eq!(v.position, [COORDINATES[at], COORDINATES[at + 1], COORDINATES[at + 2]]);
        assert_eq!(v.tex_coordinates, [COORDINATES[at + 3], COORDINATES[at + 4]]);
    }
}

#[test]
fn counts_match_the_tables() {
    assert_eq!(num_vertices(), 5);
    assert_eq!(num_indices(), 9);
    assert_eq!(INDICES, [0, 1, 4, 1, 2, 4, 2, 3, 4]);
}

#[test]
fn indices_name_vertices_in_whole_triangles() {
    assert_eq!(INDICES.len() % 3, 0);
    for index in INDICES {
        assert!((index as usize) < VERTEX_COUNT);
    }
}

#[test]
fn desc_lays_out_position_then_tex_coordinates() {
    let layout = Vertex::desc();
    let expected = VertexBufferLayout {
        array_stride: 20,
        step_mode: VertexStepMode::Vertex,
        attributes: &[
            VertexAttribute { format: VertexFormat::Float32x3, offset: 0, shader_location: 0 },
            VertexAttribute { format: VertexFormat::Float32x2, offset: 12, shader_location: 1 },
        ],
    };
    assert_eq!(layout, expected);
}

#[test]
fn desc_is_packed() {
    let layout = Vertex::desc();
    let mut end = 0;
    for (i, attribute) in layout.attributes.iter().enumerate() {
        assert_eq!(attribute.offset, end);
        assert_eq!(attribute.shader_location as usize, i);
        end = attribute.offset + attribute.format.size();
    }
    assert_eq!(layout.array_stride, end);
    assert_eq!(layout.array_stride as usize, WORD_BYTES * WORDS_PER_VERTEX);
    assert_eq!(layout.attributes[1].offset as usize, WORD_BYTES * POSITION_WORDS);
}

#[test]
fn desc_covers_one_vertex_of_the_buffer() {
    let layout = Vertex::desc();
    let bytes = WORD_BYTES * COORDINATES.len();
    assert_eq!(bytes, 100);
    assert_eq!(layout.array_stride as usize * VERTEX_COUNT, bytes);
}

#[test]
fn index_bytes_are_the_indices_in_memory() {
    let bytes = index_bytes();
    assert_eq!(bytes.len(), 18);
    for (i, index) in INDICES.iter().enumerate() {
        assert_eq!(u16::from_ne_bytes([bytes[2 * i], bytes[2 * i + 1]]), *index);
    }
}

#[test]
fn index_bytes_in_one_of_two_byte_orders() {
    let bytes = index_bytes();
    let little: Vec<u8> = INDICES.iter().flat_map(|i| i.to_le_bytes()).collect();
    let big: Vec<u8> = INDICES.iter().flat_map(|i| i.to_be_bytes()).collect();
    assert!(bytes == little || bytes == big);
    assert_eq!(little, vec![0, 0, 1, 0, 4, 0, 1, 0, 2, 0, 4, 0, 2, 0, 3, 0, 4, 0]);
}
