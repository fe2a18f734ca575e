use egui_opengl_app::gpu::{
    BufferKind, Capability, ClearTarget, GlCommand, GpuState, Rgba, Stage, ViewportRect,
};

fn rect(width: i32, height: i32) -> ViewportRect {
    ViewportRect { x: 0, y: 0, width, height }
}

#[test]
fn fresh_device_has_nothing_allocated() {
    let gpu = GpuState::new(rect(1280, 720));
    assert_eq!(gpu.viewport, rect(1280, 720));
    assert!(!gpu.depth_test && !gpu.cull_face);
    assert!(!gpu.program && !gpu.vertex_shader && !gpu.fragment_shader);
    assert!(!gpu.vertex_array && !gpu.vertex_buffer && !gpu.index_buffer);
    assert_eq!(gpu.count_shader_objects(), 0);
}

#[test]
fn execute_follows_each_command() {
    let mut gpu = GpuState::new(rect(1, 1));
    gpu.execute(GlCommand::Viewport(rect(30, 20)));
    assert_eq!(gpu.viewport, rect(30, 20));
    gpu.execute(GlCommand::Enable(Capability::DepthTest));
    assert!(gpu.depth_test && !gpu.cull_face);
    gpu.execute(GlCommand::Enable(Capability::CullFace));
    assert!(gpu.cull_face);
    gpu.execute(GlCommand::CreateProgram);
    gpu.execute(GlCommand::CreateShader(Stage::Vertex));
    gpu.execute(GlCommand::CreateShader(Stage::Fragment));
    assert_eq!(gpu.count_shader_objects(), 3);
    gpu.execute(GlCommand::DeleteShader(Stage::Vertex));
    assert!(!gpu.vertex_shader && gpu.fragment_shader && gpu.program);
    assert_eq!(gpu.count_shader_objects(), 2);
    gpu.execute(GlCommand::DeleteShader(Stage::Fragment));
    gpu.execute(GlCommand::DeleteProgram);
    assert_eq!(gpu.count_shader_objects(), 0);
    gpu.execute(GlCommand::CreateVertexArray);
    gpu.execute(GlCommand::CreateBuffer(BufferKind::Vertices));
    assert!(gpu.vertex_array && gpu.vertex_buffer && !gpu.index_buffer);
    gpu.execute(GlCommand::CreateBuffer(BufferKind::Indices));
    assert!(gpu.index_buffer);
}

#[test]
fn commands_without_tracked_effect_change_nothing() {
    let mut gpu = GpuState::new(rect(8, 8));
    let before = gpu;
    for command in [
        GlCommand::DepthFuncLess,
        GlCommand::CullBackFaces,
        GlCommand::FrontFaceCounterClockwise,
        GlCommand::ClearColor(Rgba { red: 1, green: 1, blue: 1, alpha: 10 }),
        GlCommand::Clear(ClearTarget::Depth),
        GlCommand::Clear(ClearTarget::ColorAndDepth),
        GlCommand::ShaderSource(Stage::Vertex),
        GlCommand::CompileShader(Stage::Fragment),
        GlCommand::AttachShader(Stage::Vertex),
        GlCommand::LinkProgram,
        GlCommand::BindVertexArray,
        GlCommand::UnbindVertexArray,
        GlCommand::BindBuffer(BufferKind::Vertices),
        GlCommand::BufferData(BufferKind::Indices),
        GlCommand::EnableVertexAttribArray(2),
        GlCommand::UseProgram,
        GlCommand::DrawElements(36),
    ] {
        gpu.execute(command);
        assert_eq!(gpu, before);
    }
}

#[test]
fn execute_all_runs_first_to_last() {
    let mut gpu = GpuState::new(rect(1, 1));
    gpu.execute_all(&vec![
        GlCommand::Viewport(rect(10, 10)),
        GlCommand::CreateProgram,
        GlCommand::Viewport(rect(20, 20)),
        GlCommand::DeleteProgram,
        GlCommand::Viewport(rect(30, 30)),
    ]);
    assert_eq!(gpu.viewport, rect(30, 30));
    assert!(!gpu.program);
    let before = gpu;
    gpu.execute_all(&vec![]);
    assert_eq!(gpu, before);
}

#[test]
fn drawable_needs_width_and_height() {
    assert!(rect(1, 1).drawable());
    assert!(!rect(0, 1).drawable());
    assert!(!rect(1, 0).drawable());
    assert!(!rect(-3, 5).drawable());
    assert!(ViewportRect { x: -10, y: -10, width: 2, height: 2 }.drawable());
}
