use easygpu::vertex::{VertexBufferLayout, VertexFormat, VertexLayout, VertexStepMode};

#[test]
fn position_and_color_vertex_has_stride_sixteen() {
    let layout = VertexLayout::from(&[VertexFormat::Floatx3, VertexFormat::UBytex4]);
    assert_eq!(layout.size(), 16);
    let attributes = layout.attributes();
    assert_eq!(attributes.len(), 2);
    assert_eq!(attributes[0].offset, 0);
    assert_eq!(attributes[0].shader_location, 0);
    assert_eq!(attributes[0].format, VertexFormat::Floatx3);
    assert_eq!(attributes[1].offset, 12);
    assert_eq!(attributes[1].shader_location, 1);
    assert_eq!(attributes[1].format, VertexFormat::UBytex4);

    let buffer = VertexBufferLayout::from(&layout);
    assert_eq!(buffer.array_stride, 16);
    assert_eq!(buffer.step_mode, VertexStepMode::Vertex);
    assert_eq!(buffer.attributes.len(), 2);
}

#[test]
fn every_format_has_its_size() {
    assert_eq!(VertexFormat::Float.bytesize(), 4);
    assert_eq!(VertexFormat::Floatx2.bytesize(), 8);
    assert_eq!(VertexFormat::Floatx3.bytesize(), 12);
    assert_eq!(VertexFormat::Floatx4.bytesize(), 16);
    assert_eq!(VertexFormat::UBytex4.bytesize(), 4);
}

#[test]
fn attributes_are_packed_in_order() {
    let layout = VertexLayout::from(&[
        VertexFormat::Floatx2,
        VertexFormat::Float,
        VertexFormat::UBytex4,
        VertexFormat::Floatx4,
    ]);
    let offsets: Vec<u64> = layout.attributes().iter().map(|a| a.offset).collect();
    assert_eq!(offsets, vec![0, 8, 12, 16]);
    let locations: Vec<u32> = layout.attributes().iter().map(|a| a.shader_location).collect();
    assert_eq!(locations, vec![0, 1, 2, 3]);
    assert_eq!(layout.size(), 32);
    for pair in layout.attributes().windows(2) {
        assert!(pair[0].offset + pair[0].format.bytesize() as u64 <= pair[1].offset);
    }
}

#[test]
fn vertex_without_attributes_is_empty() {
    let layout = VertexLayout::from(&[]);
    assert_eq!(layout.size(), 0);
    assert!(layout.attributes().is_empty());
    let default = VertexLayout::default();
    assert_eq!(default.size(), 0);
    assert!(default.attributes().is_empty());
    assert_eq!(VertexBufferLayout::from(&default).array_stride, 0);
}
