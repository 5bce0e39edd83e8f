use glium2::buffer::{derive_vertex_layout, FieldSpec};
use glium2::primitive::ColorVertex;
use glium2::types::{Vec3Bits, Vec4Bits};
use glium2::shader::{Vertex, VertexAttributeSpec};
use glium2::types::{component_size, OpenGLType, GL_FLOAT, GL_UNSIGNED_INT};

#[test]
fn derived_layout_offsets_and_strides() {
    let fields = vec![
        FieldSpec { components: 3, type_tag: GL_FLOAT, normalized: false },
        FieldSpec { components: 4, type_tag: GL_FLOAT, normalized: false },
    ];
    let layout = derive_vertex_layout(&fields);
    assert_eq!(layout.layouts.len(), 2);
    assert_eq!(layout.layouts[0].components, 3);
    assert_eq!(layout.layouts[0].stride, 28);
    assert_eq!(layout.layouts[0].offset, 0);
    assert_eq!(layout.layouts[1].components, 4);
    assert_eq!(layout.layouts[1].stride, 28);
    assert_eq!(layout.layouts[1].offset, 12);
}

#[test]
fn encoding_round_trips_through_derived_layout() {
    // a record with one 2-float field and one 4-byte field
    let fields = vec![
        FieldSpec { components: 2, type_tag: GL_FLOAT, normalized: false },
        FieldSpec {
            components: 4,
            type_tag: glium2::types::GL_UNSIGNED_BYTE,
            normalized: true,
        },
    ];
    let layout = derive_vertex_layout(&fields);
    let stride = layout.layouts[0].stride;
    assert_eq!(stride, 12);

    // two records, encoded field by field exactly as declared
    let rec0: Vec<Vec<u8>> = vec![
        [0.5f32.to_bits().to_le_bytes(), 1.5f32.to_bits().to_le_bytes()].concat(),
        vec![10, 20, 30, 40],
    ];
    let rec1: Vec<Vec<u8>> = vec![
        [2.5f32.to_bits().to_le_bytes(), 3.5f32.to_bits().to_le_bytes()].concat(),
        vec![50, 60, 70, 80],
    ];
    let mut bytes: Vec<u8> = Vec::new();
    for rec in [&rec0, &rec1] {
        for chunk in rec.iter() {
            bytes.extend_from_slice(chunk);
        }
    }
    assert_eq!(bytes.len(), 2 * stride);

    // re-reading every field with the declared stride and offset recovers
    // the original bytes bit for bit
    for (v, rec) in [&rec0, &rec1].iter().enumerate() {
        for (i, slot) in layout.layouts.iter().enumerate() {
            let width = slot.components * component_size(slot.type_tag);
            let start = v * slot.stride + slot.offset;
            assert_eq!(&bytes[start..start + width], &rec[i][..]);
        }
    }
}

#[test]
fn vec2_vertex_spec_matches_its_encoding() {
    let spec: VertexAttributeSpec = <glium2::buffer::Vec2Bits as Vertex>::get_vertex_spec();
    assert_eq!(spec.layouts.len(), 1);
    assert_eq!(spec.layouts[0].components, 2);
    assert_eq!(spec.layouts[0].type_tag, GL_FLOAT);
    assert_eq!(spec.layouts[0].stride, 8);
    assert_eq!(spec.layouts[0].offset, 0);
}

#[test]
fn color_vertex_encodes_position_then_color() {
    let v = ColorVertex {
        position: Vec3Bits {
            x: 1.0f32.to_bits(),
            y: 2.0f32.to_bits(),
            z: 3.0f32.to_bits(),
        },
        color: Vec4Bits {
            x: 0.25f32.to_bits(),
            y: 0.5f32.to_bits(),
            z: 0.75f32.to_bits(),
            w: 1.0f32.to_bits(),
        },
    };
    let data = v.to_data().data;
    assert_eq!(data.len(), 28);
    assert_eq!(&data[0..4], &1.0f32.to_bits().to_le_bytes());
    assert_eq!(&data[8..12], &3.0f32.to_bits().to_le_bytes());
    assert_eq!(&data[12..16], &0.25f32.to_bits().to_le_bytes());
    assert_eq!(&data[24..28], &1.0f32.to_bits().to_le_bytes());
}

#[test]
fn opengl_type_tags() {
    assert_eq!(<u32 as OpenGLType>::opengl_type(), GL_UNSIGNED_INT);
    assert_eq!(<i32 as OpenGLType>::opengl_type(), 0x1404);
    assert_eq!(<u8 as OpenGLType>::opengl_type(), 0x1401);
    assert_eq!(<u16 as OpenGLType>::opengl_type(), 0x1403);
    assert_eq!(<i16 as OpenGLType>::opengl_type(), 0x1402);
    assert_eq!(component_size(GL_FLOAT), 4);
    assert_eq!(component_size(glium2::types::GL_DOUBLE), 8);
}
