use glfw_triangle::config::{Config, COORDINATES};
use glfw_triangle::mesh::{
    triangle_layout, ComponentKind, VertexAttribute, BUFFER_BYTES, COMPONENTS, COMPONENT_BYTES,
    STRIDE, VERTEX_COUNT,
};

#[test]
fn layout_feeds_slot_zero_with_three_packed_floats() {
    let attribute = triangle_layout();
    assert_eq!(attribute.slot, 0);
    assert_eq!(attribute.components, 3);
    assert_eq!(attribute.kind, ComponentKind::Float);
    assert!(!attribute.normalized);
    assert_eq!(attribute.stride, 12);
    assert_eq!(attribute.offset, 0);
}

#[test]
fn layout_is_one_value() {
    assert_eq!(
        triangle_layout(),
        VertexAttribute {
            slot: 0,
            components: 3,
            kind: ComponentKind::Float,
            normalized: false,
            stride: 12,
            offset: 0,
        }
    );
}

#[test]
fn stride_is_three_floats() {
    assert_eq!(COMPONENTS, 3);
    assert_eq!(COMPONENT_BYTES, 4);
    assert_eq!(COMPONENT_BYTES as usize, std::mem::size_of::<f32>());
    assert_eq!(STRIDE, 3 * 4);
}

#[test]
fn triangle_has_three_vertices_in_thirty_six_bytes() {
    assert_eq!(COORDINATES, 9);
    assert_eq!(VERTEX_COUNT, 3);
    assert_eq!(BUFFER_BYTES, 36);
    let vertices = Config::default().vertices;
    assert_eq!(BUFFER_BYTES as usize, std::mem::size_of_val(&vertices));
    assert_eq!(VERTEX_COUNT as usize * COMPONENTS as usize, vertices.len());
}

#[test]
fn draw_call_covers_the_buffer() {
    assert_eq!(VERTEX_COUNT as isize * STRIDE as isize, BUFFER_BYTES);
}

#[test]
fn vertex_buffer_holds_the_nine_coordinates() {
    let coordinates: Vec<f32> =
        Config::default().vertices.iter().map(|bits| f32::from_bits(*bits)).collect();
    assert_eq!(coordinates, vec![-0.5, -0.5, 0.0, 0.5, -0.5, 0.0, 0.0, 0.5, 0.0]);
}
