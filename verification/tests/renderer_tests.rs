use egui_opengl_app::camera::{
    Axis, LookAt, Matrix, Perspective, Point3, Spin, Turn, FAR_PLANE_TENTHS,
    FIELD_OF_VIEW_DEGREES, NEAR_PLANE_TENTHS,
};
use egui_opengl_app::cube::{FRAGMENT_SHADER_SOURCE, VERTEX_SHADER_SOURCE};
use egui_opengl_app::gpu::{Capability, ClearTarget, GlCommand, GpuState, ViewportRect};
use egui_opengl_app::renderer::Renderer;
use egui_opengl_app::shader::{create_program, BuildStep, ProgramHandle, StageReport};

fn renderer_program() -> ProgramHandle {
    let (mut build, _) = create_program(VERTEX_SHADER_SOURCE, FRAGMENT_SHADER_SOURCE);
    loop {
        match build.advance(StageReport { ok: true, log: String::new() }) {
            BuildStep::Continue { build: next, .. } => build = next,
            BuildStep::Finished { result, .. } => return result.unwrap(),
        }
    }
}

fn window() -> ViewportRect {
    ViewportRect { x: 0, y: 0, width: 1280, height: 720 }
}

#[test]
fn new_renderer_uploads_the_mesh_then_sets_the_device_up() {
    let (renderer, commands) = Renderer::new(renderer_program());
    assert_eq!(renderer.stored_rotation(), 0);
    assert_eq!(commands.len(), 19);
    assert_eq!(commands[0], GlCommand::CreateVertexArray);
    assert_eq!(
        commands[15..],
        [
            GlCommand::Enable(Capability::DepthTest),
            GlCommand::Enable(Capability::CullFace),
            GlCommand::CullBackFaces,
            GlCommand::FrontFaceCounterClockwise,
        ]
    );
    let mut gpu = GpuState::new(window());
    gpu.execute_all(&commands);
    assert!(gpu.depth_test);
    assert!(gpu.cull_face);
    assert_eq!(gpu.viewport, window());
    assert_eq!(renderer.cube().indices().len(), 36);
}

#[test]
fn update_replaces_the_rotation() {
    let (mut renderer, _) = Renderer::new(renderer_program());
    renderer.update(150);
    assert_eq!(renderer.stored_rotation(), 150);
    renderer.update(20);
    assert_eq!(renderer.stored_rotation(), 20);
    renderer.update(0);
    assert_eq!(renderer.stored_rotation(), 0);
}

#[test]
fn resize_sets_the_viewport_to_the_whole_window() {
    let (mut renderer, _) = Renderer::new(renderer_program());
    let commands = renderer.resize(640, 480);
    assert_eq!(
        commands,
        vec![GlCommand::Viewport(ViewportRect { x: 0, y: 0, width: 640, height: 480 })]
    );
    let largest = renderer.resize(i32::MAX as u32, i32::MAX as u32);
    assert_eq!(
        largest,
        vec![GlCommand::Viewport(ViewportRect {
            x: 0,
            y: 0,
            width: i32::MAX,
            height: i32::MAX
        })]
    );
}

#[test]
fn last_resize_decides_the_viewport_and_a_repeat_changes_nothing() {
    let (mut renderer, _) = Renderer::new(renderer_program());
    let mut gpu = GpuState::new(window());
    for (width, height) in [(800, 600), (1024, 768), (640, 480)] {
        gpu.execute_all(&renderer.resize(width, height));
    }
    assert_eq!(gpu.viewport, ViewportRect { x: 0, y: 0, width: 640, height: 480 });
    let once = gpu;
    gpu.execute_all(&renderer.resize(640, 480));
    assert_eq!(gpu, once);
    assert_eq!(renderer.stored_rotation(), 0);
}

#[test]
fn viewport_pass_lists_prelude_draw_and_restore() {
    let (renderer, _) = Renderer::new(renderer_program());
    let rect = ViewportRect { x: 12, y: 48, width: 800, height: 600 };
    let commands = renderer.render_viewport(window(), rect, 100);
    let projection = Perspective {
        fov_degrees: 45,
        aspect_width: 800,
        aspect_height: 600,
        near_tenths: 1,
        far_tenths: 1000,
    };
    let view = LookAt {
        eye: Point3 { x: 2, y: 2, z: 2 },
        target: Point3 { x: 0, y: 0, z: 0 },
        up: Point3 { x: 0, y: 1, z: 0 },
    };
    let model = Spin {
        first: Turn { axis: Axis::Y, rotation: 100, rate_tenths: 10 },
        second: Turn { axis: Axis::X, rotation: 100, rate_tenths: 7 },
    };
    assert_eq!(
        commands,
        vec![
            GlCommand::Viewport(rect),
            GlCommand::Enable(Capability::DepthTest),
            GlCommand::DepthFuncLess,
            GlCommand::Enable(Capability::CullFace),
            GlCommand::CullBackFaces,
            GlCommand::Clear(ClearTarget::Depth),
            GlCommand::UseProgram,
            GlCommand::UniformMatrix(Matrix::Projection(projection)),
            GlCommand::UniformMatrix(Matrix::View(view)),
            GlCommand::UniformMatrix(Matrix::Model(model)),
            GlCommand::BindVertexArray,
            GlCommand::DrawElements(36),
            GlCommand::UnbindVertexArray,
            GlCommand::Viewport(window()),
        ]
    );
    assert_eq!(FIELD_OF_VIEW_DEGREES, 45);
    assert_eq!(NEAR_PLANE_TENTHS, 1);
    assert_eq!(FAR_PLANE_TENTHS, 1000);
}

#[test]
fn viewport_pass_leaves_the_viewport_as_it_was() {
    let (renderer, _) = Renderer::new(renderer_program());
    let rects = [
        ViewportRect { x: 0, y: 0, width: 1, height: 1 },
        ViewportRect { x: 12, y: 48, width: 800, height: 600 },
        ViewportRect { x: -40, y: -7, width: 3000, height: 2 },
        ViewportRect { x: 5, y: 5, width: 0, height: 10 },
        ViewportRect { x: 5, y: 5, width: 10, height: 0 },
        ViewportRect { x: 5, y: 5, width: -10, height: -10 },
    ];
    for rect in rects {
        let mut gpu = GpuState::new(window());
        let snapshot = gpu.viewport;
        gpu.execute_all(&renderer.render_viewport(snapshot, rect, 314));
        assert_eq!(gpu.viewport, snapshot, "after a pass into {:?}", rect);
    }
}

#[test]
fn viewport_pass_skips_a_rectangle_without_height() {
    let (renderer, _) = Renderer::new(renderer_program());
    for rect in [
        ViewportRect { x: 0, y: 0, width: 100, height: 0 },
        ViewportRect { x: 0, y: 0, width: 0, height: 100 },
        ViewportRect { x: 0, y: 0, width: 100, height: -1 },
        ViewportRect { x: 0, y: 0, width: i32::MIN, height: i32::MIN },
    ] {
        assert!(!rect.drawable());
        assert_eq!(renderer.render_viewport(window(), rect, 5), vec![]);
    }
}

#[test]
fn projection_aspect_is_width_over_height() {
    let (renderer, _) = Renderer::new(renderer_program());
    let rect = ViewportRect { x: 0, y: 0, width: 1920, height: 1080 };
    let commands = renderer.render_viewport(window(), rect, 0);
    let projection = commands.iter().find_map(|command| match command {
        GlCommand::UniformMatrix(Matrix::Projection(projection)) => Some(*projection),
        _ => None,
    });
    let projection = projection.unwrap();
    assert_eq!(projection.aspect_width, 1920);
    assert_eq!(projection.aspect_height, 1080);
    assert_eq!(
        projection.aspect_width as f32 / projection.aspect_height as f32,
        1920.0f32 / 1080.0f32
    );
}

#[test]
fn resize_then_pass_keeps_the_resized_viewport() {
    let (mut renderer, _) = Renderer::new(renderer_program());
    let mut gpu = GpuState::new(window());
    gpu.execute_all(&renderer.resize(640, 480));
    let rect = ViewportRect { x: 0, y: 30, width: 640, height: 420 };
    gpu.execute_all(&renderer.render_viewport(gpu.viewport, rect, 1));
    gpu.execute_all(&renderer.render_viewport(gpu.viewport, rect, 2));
    assert_eq!(gpu.viewport, ViewportRect { x: 0, y: 0, width: 640, height: 480 });
}
