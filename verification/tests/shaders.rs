use glium2::device::{CompileOutcome, Device, LinkOutcome};
use glium2::shader::{
    Program, ProgramState, Shader, ShaderState, ShaderType, VertexAttributeSpec,
};

#[test]
fn invalid_source_caches_its_error() {
    let mut dev = Device::new();
    let mut shader = Shader::new(&mut dev, String::from("not glsl"), ShaderType::Vertex);
    let sid = shader.id() as usize;
    assert_eq!(dev.shaders[sid - 1].compile_submissions, 0);

    let first = shader.compile(&mut dev, CompileOutcome::Rejected(String::from("syntax error")));
    assert_eq!(first.unwrap_err().0, "syntax error");
    assert!(matches!(shader.state(), ShaderState::CompilationError(_)));
    assert_eq!(dev.shaders[sid - 1].compile_submissions, 1);

    // the second call returns the identical error without recompiling, even
    // under a verdict that would have accepted the source
    let second = shader.compile(&mut dev, CompileOutcome::Accepted);
    assert_eq!(second.unwrap_err().0, "syntax error");
    assert_eq!(dev.shaders[sid - 1].compile_submissions, 1);
}

#[test]
fn successful_compile_is_idempotent() {
    let mut dev = Device::new();
    let mut shader = Shader::new(&mut dev, String::from("void main() {}"), ShaderType::Fragment);
    let sid = shader.id() as usize;
    assert!(matches!(shader.state(), ShaderState::Uncompiled(_)));

    assert!(shader.compile(&mut dev, CompileOutcome::Accepted).is_ok());
    assert!(matches!(shader.state(), ShaderState::Compiled));
    assert_eq!(dev.shaders[sid - 1].compile_submissions, 1);

    assert!(shader.compile(&mut dev, CompileOutcome::Accepted).is_ok());
    assert_eq!(dev.shaders[sid - 1].compile_submissions, 1);
}

#[test]
fn failed_compile_leaves_program_unlinked() {
    let mut dev = Device::new();
    let bad = Shader::new(&mut dev, String::from("bad"), ShaderType::Vertex);
    let good = Shader::new(&mut dev, String::from("good"), ShaderType::Fragment);
    let good_id = good.id() as usize;
    let mut program = Program::new(&mut dev);
    let pid = program.id() as usize;

    let outcomes = vec![
        CompileOutcome::Rejected(String::from("boom")),
        CompileOutcome::Accepted,
    ];
    let r = program.attach_and_link(&mut dev, vec![bad, good], &outcomes, LinkOutcome::Accepted);
    assert_eq!(r.unwrap_err().0, "boom");
    assert!(matches!(program.state(), ProgramState::Unlinked));
    // no link was attempted, nothing was attached
    assert_eq!(dev.programs[pid - 1].link_attempts, 0);
    assert!(dev.programs[pid - 1].attached.is_empty());
    // the short-circuit never compiled the second shader
    assert_eq!(dev.shaders[good_id - 1].compile_submissions, 0);
    // the consumed shader units' handles were released on the failure path too
    assert!(!dev.shaders[good_id - 1].alive);
}

#[test]
fn link_success_and_failure() {
    let mut dev = Device::new();
    let vs = Shader::new(&mut dev, String::from("vs"), ShaderType::Vertex);
    let fs = Shader::new(&mut dev, String::from("fs"), ShaderType::Fragment);
    let vs_id = vs.id();
    let fs_id = fs.id();
    let mut program = Program::new(&mut dev);
    let pid = program.id() as usize;

    let outcomes = vec![CompileOutcome::Accepted, CompileOutcome::Accepted];
    let r = program.attach_and_link(&mut dev, vec![vs, fs], &outcomes, LinkOutcome::Accepted);
    assert!(r.is_ok());
    assert!(matches!(program.state(), ProgramState::Linked));
    assert_eq!(dev.programs[pid - 1].link_attempts, 1);
    assert_eq!(dev.programs[pid - 1].attached, vec![vs_id, fs_id]);
    // each shader was submitted exactly once, then its handle released
    assert_eq!(dev.shaders[(vs_id - 1) as usize].compile_submissions, 1);
    assert_eq!(dev.shaders[(fs_id - 1) as usize].compile_submissions, 1);
    assert!(!dev.shaders[(vs_id - 1) as usize].alive);
    assert!(!dev.shaders[(fs_id - 1) as usize].alive);

    let mut dev2 = Device::new();
    let vs2 = Shader::new(&mut dev2, String::from("vs"), ShaderType::Vertex);
    let mut program2 = Program::new(&mut dev2);
    let outcomes2 = vec![CompileOutcome::Accepted];
    let r2 = program2.attach_and_link(
        &mut dev2,
        vec![vs2],
        &outcomes2,
        LinkOutcome::Rejected(String::from("link fail")),
    );
    assert_eq!(r2.unwrap_err().0, "link fail");
    match program2.state() {
        ProgramState::LinkerError(log) => assert_eq!(log, "link fail"),
        _ => panic!("expected a linker error"),
    }
}

#[test]
fn push_layout_appends_slots() {
    let mut spec = VertexAttributeSpec::new();
    assert_eq!(spec.layouts.len(), 0);
    spec.push_layout(2, glium2::types::GL_FLOAT, false, 8, 0);
    spec.push_layout(4, glium2::types::GL_UNSIGNED_BYTE, true, 12, 8);
    assert_eq!(spec.layouts.len(), 2);
    assert_eq!(spec.layouts[0].components, 2);
    assert_eq!(spec.layouts[1].offset, 8);
    assert!(spec.layouts[1].normalized);
}

#[test]
fn destroy_releases_shader_and_program() {
    let mut dev = Device::new();
    let shader = Shader::new(&mut dev, String::from("src"), ShaderType::Vertex);
    let sid = shader.id() as usize;
    shader.destroy(&mut dev);
    assert!(!dev.shaders[sid - 1].alive);

    let program = Program::new(&mut dev);
    let pid = program.id() as usize;
    program.destroy(&mut dev);
    assert!(!dev.programs[pid - 1].alive);
}

#[test]
fn shader_type_is_kept() {
    let mut dev = Device::new();
    let vs = Shader::new(&mut dev, String::from("a"), ShaderType::Vertex);
    let fs = Shader::new(&mut dev, String::from("b"), ShaderType::Fragment);
    assert_eq!(vs.shader_type(), ShaderType::Vertex);
    assert_eq!(fs.shader_type(), ShaderType::Fragment);
}
