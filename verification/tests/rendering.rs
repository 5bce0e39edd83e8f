use glium2::buffer::{Vec2Bits, VertexBuffer};
use glium2::device::{
    CompileOutcome, CullState, Device, DrawCall, LinkOutcome,
};
use glium2::primitive::{ColorVertex, Mesh};
use glium2::renderer::{classify_debug_message, CullingMode, DebugClass};
use glium2::shader::{Program, Shader, ShaderType};
use glium2::types::{Vec3Bits, Vec4Bits, GL_DEBUG_TYPE_ERROR, GL_TRIANGLES, GL_UNSIGNED_INT};
use glium2::uniforms::{UniformValue, Uniforms};
use glium2::{DrawMode, Renderer};

fn v2(x: f32, y: f32) -> Vec2Bits {
    Vec2Bits { x: x.to_bits(), y: y.to_bits() }
}

fn cv(x: f32, y: f32) -> ColorVertex {
    ColorVertex {
        position: Vec3Bits { x: x.to_bits(), y: y.to_bits(), z: 0.0f32.to_bits() },
        color: Vec4Bits {
            x: 1.0f32.to_bits(),
            y: 1.0f32.to_bits(),
            z: 1.0f32.to_bits(),
            w: 1.0f32.to_bits(),
        },
    }
}

fn linked_program(dev: &mut Device) -> Program {
    let vs = Shader::new(dev, String::from("vertex pass-through"), ShaderType::Vertex);
    let fs = Shader::new(dev, String::from("solid color"), ShaderType::Fragment);
    let mut program = Program::new(dev);
    let outcomes = vec![CompileOutcome::Accepted, CompileOutcome::Accepted];
    program
        .attach_and_link(dev, vec![vs, fs], &outcomes, LinkOutcome::Accepted)
        .expect("program should link");
    program
}

#[test]
fn hello_triangle_draws_three_vertices() {
    let mut dev = Device::new();
    let renderer = Renderer::new(&mut dev);
    let buffer = VertexBuffer::new(
        &mut dev,
        &vec![v2(0.0, 0.5), v2(0.5, 0.0), v2(-0.5, 0.0)],
        None,
    );
    let program = linked_program(&mut dev);

    renderer.draw(&mut dev, &buffer, &program, DrawMode::Triangles, &Uniforms::new());

    assert_eq!(dev.draw_calls.len(), 1);
    assert_eq!(
        dev.draw_calls[0],
        DrawCall::Arrays { mode: GL_TRIANGLES, count: 3 }
    );
    assert_eq!(dev.error_count, 0);
}

#[test]
fn indexed_square_draws_six_indices() {
    let mut dev = Device::new();
    let renderer = Renderer::new(&mut dev);
    let vertices = vec![cv(0.0, 0.0), cv(0.0, 1.0), cv(1.0, 1.0), cv(1.0, 0.0)];
    let indices: Vec<u32> = vec![0, 1, 2, 0, 2, 3];
    let buffer = VertexBuffer::new(&mut dev, &vertices, Some(&indices));
    let program = linked_program(&mut dev);

    renderer.draw(&mut dev, &buffer, &program, DrawMode::Triangles, &Uniforms::new());

    assert_eq!(dev.draw_calls.len(), 1);
    assert_eq!(
        dev.draw_calls[0],
        DrawCall::Elements { mode: GL_TRIANGLES, count: 6, index_type: GL_UNSIGNED_INT }
    );
    assert_eq!(dev.error_count, 0);
}

#[test]
fn mesh_draws_with_its_own_mode() {
    let mut dev = Device::new();
    let renderer = Renderer::new(&mut dev);
    let buffer = VertexBuffer::new(
        &mut dev,
        &vec![v2(0.0, 0.0), v2(1.0, 0.0), v2(0.0, 1.0)],
        None,
    );
    let program = linked_program(&mut dev);
    let mesh = Mesh::new(buffer, DrawMode::TriangleFan);

    mesh.draw(&renderer, &mut dev, &program, &Uniforms::new());

    assert_eq!(dev.draw_calls.len(), 1);
    assert_eq!(dev.draw_calls[0], DrawCall::Arrays { mode: 6, count: 3 });
    assert_eq!(dev.error_count, 0);
}

#[test]
fn out_of_range_index_reports_device_error() {
    let mut dev = Device::new();
    let renderer = Renderer::new(&mut dev);
    let vertices = vec![cv(0.0, 0.0), cv(0.0, 1.0), cv(1.0, 1.0)];
    let indices: Vec<u32> = vec![0, 1, 7];
    let buffer = VertexBuffer::new(&mut dev, &vertices, Some(&indices));
    let program = linked_program(&mut dev);

    renderer.draw(&mut dev, &buffer, &program, DrawMode::Triangles, &Uniforms::new());

    assert_eq!(dev.draw_calls.len(), 1);
    assert_eq!(dev.error_count, 1);
}

#[test]
fn uniforms_upload_in_insertion_order() {
    let mut dev = Device::new();
    let mut uniforms = Uniforms::new();
    uniforms.push(3, UniformValue::Float(0.25f32.to_bits()));
    uniforms.push(1, UniformValue::Vector2(1.0f32.to_bits(), 2.0f32.to_bits()));
    uniforms.push(1, UniformValue::Int(-7));
    uniforms.upload_all(&mut dev);

    assert_eq!(dev.uniform_writes.len(), 3);
    assert_eq!(dev.uniform_writes[0].0, 3);
    assert_eq!(dev.uniform_writes[0].1, vec![0.25f32.to_bits()]);
    assert_eq!(dev.uniform_writes[1].0, 1);
    assert_eq!(
        dev.uniform_writes[1].1,
        vec![1.0f32.to_bits(), 2.0f32.to_bits()]
    );
    // duplicate locations are uploaded in order: last write wins on device
    assert_eq!(dev.uniform_writes[2].0, 1);
    assert_eq!(dev.uniform_writes[2].1, vec![-7i32 as u32]);
}

#[test]
fn double_uniform_splits_into_two_words() {
    let mut dev = Device::new();
    let bits = 1.5f64.to_bits();
    let mut uniforms = Uniforms::new();
    uniforms.push(0, UniformValue::Double(bits));
    uniforms.upload_all(&mut dev);
    assert_eq!(
        dev.uniform_writes[0].1,
        vec![bits as u32, (bits >> 32) as u32]
    );
}

#[test]
fn cull_faces_sets_device_state() {
    let mut dev = Device::new();
    let mut renderer = Renderer::new(&mut dev);
    renderer.cull_faces(&mut dev, CullingMode::Clockwise);
    assert_eq!(dev.cull, CullState::Enabled { front_ccw: false });
    renderer.cull_faces(&mut dev, CullingMode::CounterClockwise);
    assert_eq!(dev.cull, CullState::Enabled { front_ccw: true });
    renderer.cull_faces(&mut dev, CullingMode::Disabled);
    assert_eq!(dev.cull, CullState::Disabled);
}

#[test]
fn clear_uses_stored_state() {
    let mut dev = Device::new();
    let mut renderer = Renderer::new(&mut dev);
    let color = Vec4Bits {
        x: 0.1f32.to_bits(),
        y: 0.2f32.to_bits(),
        z: 0.3f32.to_bits(),
        w: 1.0f32.to_bits(),
    };
    renderer.clear_color(color);
    renderer.clear_depth(1.0f64.to_bits());
    renderer.clear(&mut dev);
    assert_eq!(dev.clears, 1);
    assert_eq!(
        dev.clear_color,
        (color.x, color.y, color.z, color.w)
    );
    assert_eq!(dev.clear_depth, 1.0f64.to_bits());
}

#[test]
fn debug_messages_classify_by_type() {
    assert_eq!(classify_debug_message(GL_DEBUG_TYPE_ERROR), DebugClass::Error);
    assert_eq!(classify_debug_message(0x8250), DebugClass::Info);
}

#[test]
fn draw_modes_map_to_device_tags() {
    assert_eq!(DrawMode::Triangles.gl_mode(), 4);
    assert_eq!(DrawMode::TriangleStrip.gl_mode(), 5);
    assert_eq!(DrawMode::TriangleFan.gl_mode(), 6);
    assert_eq!(u32::from(DrawMode::TriangleStrip), 5);
}

#[test]
fn matrix_uniform_uploads_sixteen_words() {
    let mut dev = Device::new();
    let words: Vec<u32> = (0..16).map(|i| (i as f32).to_bits()).collect();
    let mut uniforms = Uniforms::new();
    uniforms.push(2, UniformValue::Matrix4(words.clone()));
    uniforms.upload_all(&mut dev);
    assert_eq!(dev.uniform_writes[0].1, words);
}

#[test]
fn draw_after_update_keeps_channel_clean() {
    let mut dev = Device::new();
    let renderer = Renderer::new(&mut dev);
    let mut buffer = VertexBuffer::new(
        &mut dev,
        &vec![v2(0.0, 0.0), v2(1.0, 0.0), v2(0.0, 1.0)],
        None,
    );
    let program = linked_program(&mut dev);
    let indices: Vec<u32> = vec![0, 1, 2, 2, 1, 0];
    buffer.update_buffer(&mut dev, &vec![v2(0.0, 0.0), v2(1.0, 0.0), v2(0.0, 1.0)], Some(&indices));

    renderer.draw(&mut dev, &buffer, &program, DrawMode::Triangles, &Uniforms::new());
    assert_eq!(dev.draw_calls.len(), 1);
    assert_eq!(
        dev.draw_calls[0],
        DrawCall::Elements { mode: GL_TRIANGLES, count: 6, index_type: GL_UNSIGNED_INT }
    );
    assert_eq!(dev.error_count, 0);
}
