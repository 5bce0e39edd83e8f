use glium2::buffer::{encode_indices, ReplaceError, Vec2Bits, VertexBuffer};
use glium2::device::Device;
use glium2::primitive::ColorVertex;
use glium2::types::{Vec3Bits, Vec4Bits};

fn v2(x: f32, y: f32) -> Vec2Bits {
    Vec2Bits { x: x.to_bits(), y: y.to_bits() }
}

fn cv(x: f32, y: f32, z: f32) -> ColorVertex {
    ColorVertex {
        position: Vec3Bits { x: x.to_bits(), y: y.to_bits(), z: z.to_bits() },
        color: Vec4Bits {
            x: 1.0f32.to_bits(),
            y: 1.0f32.to_bits(),
            z: 1.0f32.to_bits(),
            w: 1.0f32.to_bits(),
        },
    }
}

fn square() -> (Vec<ColorVertex>, Vec<u32>) {
    (
        vec![
            cv(0.0, 0.0, 0.0),
            cv(0.0, 1.0, 0.0),
            cv(1.0, 1.0, 0.0),
            cv(1.0, 0.0, 0.0),
        ],
        vec![0, 1, 2, 0, 2, 3],
    )
}

#[test]
fn new_buffer_counts_and_storage() {
    let mut dev = Device::new();
    let verts = vec![v2(0.0, 0.5), v2(0.5, 0.0), v2(-0.5, 0.0)];
    let buf = VertexBuffer::new(&mut dev, &verts, None);
    assert_eq!(buf.vertex_count(), 3);
    assert!(!buf.has_indices());
    assert_eq!(buf.index_count(), 0);
    let vbo = buf.vbo_handle() as usize;
    let data = &dev.buffers[vbo - 1].data;
    assert_eq!(data.len(), 24);
    // first vertex: 0.0 then 0.5, little-endian bit patterns
    assert_eq!(&data[0..4], &0.0f32.to_bits().to_le_bytes());
    assert_eq!(&data[4..8], &0.5f32.to_bits().to_le_bytes());
    assert_eq!(dev.buffers[vbo - 1].allocations, 1);
}

#[test]
fn update_then_replace_does_not_reallocate() {
    let mut dev = Device::new();
    let (verts, indices) = square();
    let mut buf = VertexBuffer::new(&mut dev, &verts, Some(&indices));
    let vbo = buf.vbo_handle();
    let ibo = buf.ibo_handle().unwrap();
    assert_eq!(dev.buffers[(vbo - 1) as usize].allocations, 1);

    // same counts: update takes the in-place path, storage is not reallocated
    let moved: Vec<ColorVertex> = verts.iter().map(|v| cv(2.0, 2.0, 0.0)).collect();
    let _ = &moved;
    buf.update_buffer(&mut dev, &moved, Some(&indices));
    assert_eq!(buf.vbo_handle(), vbo);
    assert_eq!(buf.ibo_handle(), Some(ibo));
    assert_eq!(dev.buffers[(vbo - 1) as usize].allocations, 1);
    assert_eq!(dev.buffers[(ibo - 1) as usize].allocations, 1);
    // content observably updated
    assert_eq!(
        &dev.buffers[(vbo - 1) as usize].data[0..4],
        &2.0f32.to_bits().to_le_bytes()
    );

    // an explicit replace with unchanged counts keeps storage too
    let back: Vec<ColorVertex> = verts.clone();
    let r = buf.replace(&mut dev, &back, Some(&indices));
    assert!(r.is_ok());
    assert_eq!(dev.buffers[(vbo - 1) as usize].allocations, 1);
    assert_eq!(
        &dev.buffers[(vbo - 1) as usize].data[0..4],
        &0.0f32.to_bits().to_le_bytes()
    );

    // a different vertex count reallocates
    let bigger = vec![cv(0.0, 0.0, 0.0); 5];
    let more: Vec<u32> = vec![0, 1, 2, 0, 2, 3];
    buf.update_buffer(&mut dev, &bigger, Some(&more));
    assert_eq!(dev.buffers[(vbo - 1) as usize].allocations, 2);
}

#[test]
fn update_transitions_index_presence() {
    let mut dev = Device::new();
    let verts = vec![v2(0.0, 0.0), v2(1.0, 0.0), v2(0.0, 1.0), v2(1.0, 1.0)];
    let mut buf = VertexBuffer::new(&mut dev, &verts, None);
    assert!(!buf.has_indices());

    let indices: Vec<u32> = vec![0, 1, 2, 1, 3, 2];
    buf.update_buffer(&mut dev, &verts, Some(&indices));
    assert!(buf.has_indices());
    assert_eq!(buf.index_count(), 6);

    buf.update_buffer(&mut dev, &verts, None);
    assert!(!buf.has_indices());
    assert_eq!(buf.index_count(), 0);
}

#[test]
fn replace_reports_index_presence_mismatch() {
    let mut dev = Device::new();
    let verts = vec![v2(0.0, 0.0), v2(1.0, 0.0), v2(0.0, 1.0)];
    let mut buf = VertexBuffer::new(&mut dev, &verts, None);
    let indices: Vec<u32> = vec![0, 1, 2];
    let r = buf.replace(&mut dev, &verts, Some(&indices));
    assert_eq!(r, Err(ReplaceError::IndexPresenceMismatch));
    // nothing changed
    assert!(!buf.has_indices());
    assert_eq!(dev.buffers[(buf.vbo_handle() - 1) as usize].allocations, 1);
}

#[test]
fn clone_copies_contents_to_distinct_handles() {
    let mut dev = Device::new();
    let (verts, indices) = square();
    let buf = VertexBuffer::new(&mut dev, &verts, Some(&indices));
    let copy = buf.clone_buffer(&mut dev);

    assert_eq!(copy.vertex_count(), buf.vertex_count());
    assert_eq!(copy.index_count(), buf.index_count());
    assert!(copy.has_indices());
    assert_ne!(copy.vbo_handle(), buf.vbo_handle());
    assert_ne!(copy.vao_handle(), buf.vao_handle());
    assert_ne!(copy.ibo_handle().unwrap(), buf.ibo_handle().unwrap());

    let old_v = &dev.buffers[(buf.vbo_handle() - 1) as usize].data;
    let new_v = &dev.buffers[(copy.vbo_handle() - 1) as usize].data;
    assert_eq!(old_v, new_v);
    let old_i = &dev.buffers[(buf.ibo_handle().unwrap() - 1) as usize].data;
    let new_i = &dev.buffers[(copy.ibo_handle().unwrap() - 1) as usize].data;
    assert_eq!(old_i, new_i);
}

#[test]
fn destroy_releases_both_handles() {
    let mut dev = Device::new();
    let (verts, indices) = square();
    let buf = VertexBuffer::new(&mut dev, &verts, Some(&indices));
    let vbo = buf.vbo_handle() as usize;
    let ibo = buf.ibo_handle().unwrap() as usize;
    buf.destroy(&mut dev);
    assert!(!dev.buffers[vbo - 1].alive);
    assert!(!dev.buffers[ibo - 1].alive);
}

#[test]
fn encode_indices_little_endian() {
    let r = encode_indices(&vec![1u32, 0x01020304]);
    assert_eq!(r, vec![1, 0, 0, 0, 4, 3, 2, 1]);
}

#[test]
fn empty_buffer_is_well_formed() {
    let mut dev = Device::new();
    let verts: Vec<Vec2Bits> = vec![];
    let buf = VertexBuffer::new(&mut dev, &verts, None);
    assert_eq!(buf.vertex_count(), 0);
    assert_eq!(dev.buffers[(buf.vbo_handle() - 1) as usize].data.len(), 0);
}
