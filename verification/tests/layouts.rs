use shell_fur::bindings::{
    pipeline_groups, Binding, Group, Resource, Stage, CAMERA_BYTES, GROUPS, TIME_BYTES,
};
use shell_fur::frame::Variant;
use shell_fur::layout::{
    pack, vertex_layout, AttributeFormat, VertexAttribute, VERTEX_ALIGN, VERTEX_STRIDE,
};

#[test]
fn format_sizes() {
    assert_eq!(AttributeFormat::Float32x2.byte_size(), 8);
    assert_eq!(AttributeFormat::Float32x3.byte_size(), 12);
}

#[test]
fn base_vertex_is_position_and_texture_coordinate() {
    let layout = vertex_layout(Variant::Base);
    assert_eq!(layout.stride, 32);
    assert_eq!(
        layout.attributes,
        vec![
            VertexAttribute { location: 0, offset: 0, format: AttributeFormat::Float32x3 },
            VertexAttribute { location: 1, offset: 12, format: AttributeFormat::Float32x2 },
        ]
    );
}

#[test]
fn shell_vertex_has_a_normal_too() {
    let layout = vertex_layout(Variant::Shell);
    assert_eq!(layout.stride, 32);
    assert_eq!(layout.stride, VERTEX_STRIDE);
    assert_eq!(
        layout.attributes,
        vec![
            VertexAttribute { location: 0, offset: 0, format: AttributeFormat::Float32x3 },
            VertexAttribute { location: 1, offset: 12, format: AttributeFormat::Float32x2 },
            VertexAttribute { location: 2, offset: 20, format: AttributeFormat::Float32x3 },
        ]
    );
}

#[test]
fn pack_pads_to_the_alignment() {
    assert_eq!(VERTEX_ALIGN, 16);
    let empty = pack(&vec![]).unwrap();
    assert_eq!(empty.stride, 0);
    assert!(empty.attributes.is_empty());
    let one = pack(&vec![AttributeFormat::Float32x2]).unwrap();
    assert_eq!(one.stride, 16);
    let exact = pack(&vec![AttributeFormat::Float32x2, AttributeFormat::Float32x2]).unwrap();
    assert_eq!(exact.stride, 16);
    let over = pack(&vec![
        AttributeFormat::Float32x3,
        AttributeFormat::Float32x3,
        AttributeFormat::Float32x3,
    ])
    .unwrap();
    assert_eq!(over.stride, 48);
    assert_eq!(
        over.attributes,
        vec![
            VertexAttribute { location: 0, offset: 0, format: AttributeFormat::Float32x3 },
            VertexAttribute { location: 1, offset: 12, format: AttributeFormat::Float32x3 },
            VertexAttribute { location: 2, offset: 24, format: AttributeFormat::Float32x3 },
        ]
    );
}

#[test]
fn pack_of_many_attributes() {
    let formats: Vec<AttributeFormat> = (0..1000)
        .map(|i| if i % 2 == 0 { AttributeFormat::Float32x3 } else { AttributeFormat::Float32x2 })
        .collect();
    let layout = pack(&formats).unwrap();
    assert_eq!(layout.attributes.len(), 1000);
    assert_eq!(layout.attributes[999].location, 999);
    assert_eq!(layout.attributes[999].offset, 500 * 12 + 499 * 8);
    assert_eq!(layout.stride, 10_000);
}

#[test]
fn texture_group_is_for_the_fragment_stage() {
    assert_eq!(Group::Texture.index(), 0);
    assert_eq!(
        Group::Texture.bindings(),
        vec![
            Binding { binding: 0, visibility: Stage::Fragment, resource: Resource::Texture },
            Binding { binding: 1, visibility: Stage::Fragment, resource: Resource::Sampler },
        ]
    );
}

#[test]
fn camera_and_time_are_for_the_vertex_stage() {
    assert_eq!(Group::Camera.index(), 1);
    assert_eq!(Group::Time.index(), 2);
    assert_eq!(
        Group::Camera.bindings(),
        vec![Binding {
            binding: 0,
            visibility: Stage::Vertex,
            resource: Resource::Uniform { size: 64 },
        }]
    );
    assert_eq!(
        Group::Time.bindings(),
        vec![Binding { binding: 0, visibility: Stage::Vertex, resource: Resource::Uniform { size: 4 } }]
    );
    assert_eq!(CAMERA_BYTES, 64);
    assert_eq!(TIME_BYTES, 4);
}

#[test]
fn groups_are_numbered_in_pipeline_order() {
    assert_eq!(GROUPS, 3);
    assert_eq!(pipeline_groups(), vec![Group::Texture, Group::Camera, Group::Time]);
    for (place, group) in pipeline_groups().into_iter().enumerate() {
        assert_eq!(group.index() as usize, place);
        assert_eq!(Group::from_index(place as u32), Some(group));
    }
    assert_eq!(Group::from_index(3), None);
    assert_eq!(Group::from_index(u32::MAX), None);
}
