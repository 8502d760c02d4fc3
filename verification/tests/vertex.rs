use voxel_render::vertex::{Vertex, VertexAttribute, VertexFormat, AXIS_X, AXIS_Y, AXIS_Z};

#[test]
fn axis_tags_are_zero_one_two() {
    assert_eq!(AXIS_X, 0);
    assert_eq!(AXIS_Y, 1);
    assert_eq!(AXIS_Z, 2);
}

#[test]
fn stride_is_sixteen_bytes() {
    assert_eq!(Vertex::stride(), 16);
}

#[test]
fn format_sizes() {
    assert_eq!(VertexFormat::Float32x3.size(), 12);
    assert_eq!(VertexFormat::Uint32.size(), 4);
}

#[test]
fn attributes_are_position_then_axis() {
    let attributes = Vertex::attributes();
    assert_eq!(
        attributes[0],
        VertexAttribute { format: VertexFormat::Float32x3, offset: 0, shader_location: 0 }
    );
    assert_eq!(
        attributes[1],
        VertexAttribute { format: VertexFormat::Uint32, offset: 12, shader_location: 1 }
    );
}

#[test]
fn attributes_fill_the_stride_without_gaps() {
    let attributes = Vertex::attributes();
    let mut end = 0;
    for attribute in attributes.iter() {
        assert_eq!(attribute.offset, end);
        end = attribute.offset + attribute.format.size();
    }
    assert_eq!(end, Vertex::stride());
}
