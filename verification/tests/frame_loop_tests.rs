use egui_opengl_app::config::{Config, WindowConfig};
use egui_opengl_app::cube::{FRAGMENT_SHADER_SOURCE, VERTEX_SHADER_SOURCE};
use egui_opengl_app::frame_loop::{
    pick_config, window_geometry, Action, FrameLoop, InitStep, Key, Lifecycle, Position,
    WindowEvent, WindowGeometry, CONTEXT_VERSION_MAJOR, CONTEXT_VERSION_MINOR,
};
use egui_opengl_app::gpu::{ClearTarget, GlCommand, GpuState, Rgba, ViewportRect};
use egui_opengl_app::renderer::Renderer;
use egui_opengl_app::shader::{create_program, BuildStep, StageReport};

fn loop_renderer() -> (Renderer, Vec<GlCommand>) {
    let (mut build, _) = create_program(VERTEX_SHADER_SOURCE, FRAGMENT_SHADER_SOURCE);
    loop {
        match build.advance(StageReport { ok: true, log: String::new() }) {
            BuildStep::Continue { build: next, .. } => build = next,
            BuildStep::Finished { result, .. } => return Renderer::new(result.unwrap()),
        }
    }
}

fn geometry(width: u32, height: u32) -> WindowGeometry {
    WindowGeometry { width, height, position: None, maximized: false }
}

fn ready_loop(width: u32, height: u32) -> FrameLoop {
    let mut frame_loop = FrameLoop::new(Config::default());
    assert!(frame_loop.initialize(geometry(width, height)).is_some());
    assert!(frame_loop.ready(loop_renderer().0));
    frame_loop
}

/// Carries out the actions on a counting host: the device model runs the
/// device commands, and presents and redraw requests are counted.
struct Host {
    gpu: GpuState,
    surface: (u32, u32),
    presents: u32,
    saves: u32,
    exits: u32,
}

fn perform(host: &mut Host, actions: &[Action]) {
    for action in actions {
        match action {
            Action::Gpu(command) => host.gpu.execute(*command),
            Action::ResizeSurface { width, height } => host.surface = (*width, *height),
            Action::Present => host.presents += 1,
            Action::SaveConfig => host.saves += 1,
            Action::Exit => host.exits += 1,
            _ => {}
        }
    }
}

#[test]
fn initialize_then_resize_then_redraw() {
    let mut frame_loop = FrameLoop::new(Config::default());
    let requested = window_geometry(1280, 720, &frame_loop.config.window);
    assert_eq!(requested, geometry(1280, 720));
    let steps = frame_loop.initialize(requested).unwrap();
    assert_eq!(steps[0], InitStep::CreateWindow(requested));
    let (renderer, setup) = loop_renderer();
    let mut host = Host {
        gpu: GpuState::new(ViewportRect { x: 0, y: 0, width: 1280, height: 720 }),
        surface: (1280, 720),
        presents: 0,
        saves: 0,
        exits: 0,
    };
    host.gpu.execute_all(&setup);
    assert!(frame_loop.ready(renderer));
    assert_eq!(frame_loop.surface_size(), Some((1280, 720)));

    let actions = frame_loop.handle_event(WindowEvent::Resized { width: 640, height: 480 });
    perform(&mut host, &actions);
    let before = host.presents;
    let actions = frame_loop.handle_event(WindowEvent::RedrawRequested);
    perform(&mut host, &actions);

    assert_eq!(host.exits, 0);
    assert!(matches!(frame_loop.lifecycle, Lifecycle::Ready(_)));
    assert_eq!(frame_loop.surface_size(), Some((640, 480)));
    assert_eq!(host.surface, (640, 480));
    assert_eq!(host.presents, before + 1);
    assert_eq!(host.gpu.viewport, ViewportRect { x: 0, y: 0, width: 640, height: 480 });
    assert_eq!(frame_loop.config.window.width, 640);
    assert_eq!(frame_loop.config.window.height, 480);
}

#[test]
fn surface_has_the_requested_size_once_ready() {
    for (width, height) in [(1, 1), (1280, 720), (800, 600), (3840, 2160), (u32::MAX, 1)] {
        let frame_loop = ready_loop(width, height);
        assert_eq!(frame_loop.surface_size(), Some((width, height)));
    }
}

#[test]
fn initialization_steps_come_in_their_order() {
    let mut frame_loop = FrameLoop::new(Config::default());
    let requested = WindowGeometry {
        width: 800,
        height: 600,
        position: Some(Position { x: 10, y: 20 }),
        maximized: true,
    };
    assert_eq!(
        frame_loop.initialize(requested),
        Some(vec![
            InitStep::CreateWindow(requested),
            InitStep::CreateContext { major: 4, minor: 5 },
            InitStep::CreateSurface,
            InitStep::MakeCurrent,
            InitStep::LoadFunctions,
            InitStep::DisableVsync,
            InitStep::CreateUi,
            InitStep::CreateRenderer,
        ])
    );
    assert_eq!((CONTEXT_VERSION_MAJOR, CONTEXT_VERSION_MINOR), (4, 5));
    assert!(matches!(frame_loop.lifecycle, Lifecycle::Initializing(g) if g == requested));
    assert_eq!(frame_loop.surface_size(), None);
}

#[test]
fn a_loop_begins_once() {
    let mut frame_loop = FrameLoop::new(Config::default());
    assert!(frame_loop.initialize(geometry(100, 100)).is_some());
    assert_eq!(frame_loop.initialize(geometry(200, 200)), None);
    assert!(matches!(frame_loop.lifecycle, Lifecycle::Initializing(g) if g.width == 100));
    assert!(frame_loop.ready(loop_renderer().0));
    assert_eq!(frame_loop.initialize(geometry(300, 300)), None);
    assert!(!frame_loop.ready(loop_renderer().0));
    assert_eq!(frame_loop.surface_size(), Some((100, 100)));
}

#[test]
fn ready_needs_an_initializing_loop() {
    let mut frame_loop = FrameLoop::new(Config::default());
    assert!(!frame_loop.ready(loop_renderer().0));
    assert!(matches!(frame_loop.lifecycle, Lifecycle::Uninitialized));
}

#[test]
fn events_before_ready_are_ignored() {
    let mut frame_loop = FrameLoop::new(Config::default());
    for event in [
        WindowEvent::RedrawRequested,
        WindowEvent::Resized { width: 640, height: 480 },
        WindowEvent::Moved { x: 1, y: 2 },
        WindowEvent::KeyPressed(Key::Space),
        WindowEvent::CloseRequested,
        WindowEvent::AboutToWait,
    ] {
        assert_eq!(frame_loop.handle_event(event), vec![]);
        assert!(matches!(frame_loop.lifecycle, Lifecycle::Uninitialized));
        assert_eq!(frame_loop.config, Config::default());
    }
    frame_loop.initialize(geometry(640, 480));
    assert_eq!(frame_loop.handle_event(WindowEvent::RedrawRequested), vec![]);
    assert_eq!(frame_loop.request_exit(), vec![]);
    assert!(matches!(frame_loop.lifecycle, Lifecycle::Initializing(_)));
}

#[test]
fn redraw_runs_the_steps_of_a_frame() {
    let mut frame_loop = ready_loop(1280, 720);
    assert_eq!(
        frame_loop.handle_event(WindowEvent::RedrawRequested),
        vec![
            Action::ForwardToUi,
            Action::CaptureInput,
            Action::LayoutUi,
            Action::HandlePlatformOutput,
            Action::Tessellate,
            Action::Gpu(GlCommand::ClearColor(Rgba { red: 1, green: 1, blue: 1, alpha: 10 })),
            Action::Gpu(GlCommand::Clear(ClearTarget::ColorAndDepth)),
            Action::PaintUi,
            Action::UpdateTextures,
            Action::FreeTextures,
            Action::Present,
            Action::RequestRedraw,
        ]
    );
}

#[test]
fn resize_goes_to_surface_viewport_and_settings() {
    let mut frame_loop = ready_loop(1280, 720);
    assert_eq!(
        frame_loop.handle_event(WindowEvent::Resized { width: 1024, height: 768 }),
        vec![
            Action::ForwardToUi,
            Action::ResizeSurface { width: 1024, height: 768 },
            Action::Gpu(GlCommand::Viewport(ViewportRect {
                x: 0,
                y: 0,
                width: 1024,
                height: 768
            })),
            Action::SaveConfig,
        ]
    );
    assert_eq!(frame_loop.surface_size(), Some((1024, 768)));
    assert_eq!(
        frame_loop.config.window,
        WindowConfig { width: 1024, height: 768, pos_x: None, pos_y: None, maximized: false }
    );
}

#[test]
fn move_goes_into_the_settings() {
    let mut frame_loop = ready_loop(1280, 720);
    assert_eq!(
        frame_loop.handle_event(WindowEvent::Moved { x: -30, y: 75 }),
        vec![Action::ForwardToUi, Action::SaveConfig]
    );
    assert_eq!(frame_loop.config.window.pos_x, Some(-30));
    assert_eq!(frame_loop.config.window.pos_y, Some(75));
    assert_eq!(frame_loop.surface_size(), Some((1280, 720)));
}

fn session_state(frame_loop: &FrameLoop) -> (bool, u64) {
    match &frame_loop.lifecycle {
        Lifecycle::Ready(session) => (session.app_state.playing, session.app_state.frame_count),
        _ => panic!("the loop is not ready"),
    }
}

#[test]
fn keys_drive_the_animation() {
    let mut frame_loop = ready_loop(1280, 720);
    let redraw = vec![Action::ForwardToUi, Action::RequestRedraw];
    assert_eq!(frame_loop.handle_event(WindowEvent::KeyPressed(Key::Space)), redraw);
    assert_eq!(session_state(&frame_loop), (true, 0));
    assert_eq!(frame_loop.handle_event(WindowEvent::KeyPressed(Key::ArrowUp)), redraw);
    assert_eq!(session_state(&frame_loop), (false, 0));
    assert_eq!(frame_loop.handle_event(WindowEvent::KeyPressed(Key::ArrowRight)), redraw);
    assert_eq!(frame_loop.handle_event(WindowEvent::KeyPressed(Key::ArrowRight)), redraw);
    assert_eq!(session_state(&frame_loop), (false, 2));
    frame_loop.handle_event(WindowEvent::KeyPressed(Key::Space));
    assert_eq!(frame_loop.handle_event(WindowEvent::KeyPressed(Key::ArrowLeft)), redraw);
    assert_eq!(session_state(&frame_loop), (false, 0));
    frame_loop.handle_event(WindowEvent::KeyPressed(Key::ArrowRight));
    assert_eq!(frame_loop.handle_event(WindowEvent::KeyPressed(Key::KeyR)), redraw);
    assert_eq!(session_state(&frame_loop), (false, 0));
    assert_eq!(
        frame_loop.handle_event(WindowEvent::KeyPressed(Key::Other)),
        vec![Action::ForwardToUi]
    );
    assert_eq!(frame_loop.handle_event(WindowEvent::Other), vec![Action::ForwardToUi]);
    assert_eq!(frame_loop.handle_event(WindowEvent::AboutToWait), vec![Action::RequestRedraw]);
}

#[test]
fn close_and_escape_end_the_loop() {
    for event in [WindowEvent::CloseRequested, WindowEvent::KeyPressed(Key::Escape)] {
        let mut frame_loop = ready_loop(1280, 720);
        assert_eq!(frame_loop.handle_event(event), vec![Action::ForwardToUi, Action::Exit]);
        assert!(matches!(frame_loop.lifecycle, Lifecycle::Disposed));
        assert_eq!(frame_loop.handle_event(WindowEvent::RedrawRequested), vec![]);
        assert_eq!(frame_loop.surface_size(), None);
        assert_eq!(frame_loop.initialize(geometry(1, 1)), None);
    }
}

#[test]
fn exit_request_ends_a_ready_loop() {
    let mut frame_loop = ready_loop(1280, 720);
    assert_eq!(frame_loop.request_exit(), vec![Action::Exit]);
    assert!(matches!(frame_loop.lifecycle, Lifecycle::Disposed));
    assert_eq!(frame_loop.request_exit(), vec![]);
}

#[test]
fn geometry_prefers_the_command_line_unless_it_is_the_default() {
    let stored = WindowConfig {
        width: 1600,
        height: 900,
        pos_x: Some(5),
        pos_y: Some(6),
        maximized: true,
    };
    assert_eq!(
        window_geometry(1280, 720, &stored),
        WindowGeometry {
            width: 1600,
            height: 900,
            position: Some(Position { x: 5, y: 6 }),
            maximized: true
        }
    );
    let chosen = window_geometry(800, 600, &stored);
    assert_eq!((chosen.width, chosen.height), (800, 600));
    let mixed = window_geometry(800, 720, &stored);
    assert_eq!((mixed.width, mixed.height), (800, 900));
    let mixed = window_geometry(1280, 600, &stored);
    assert_eq!((mixed.width, mixed.height), (1600, 600));
}

#[test]
fn geometry_places_the_window_only_with_both_coordinates() {
    let mut stored = Config::default().window;
    assert_eq!(window_geometry(1280, 720, &stored).position, None);
    stored.pos_x = Some(10);
    assert_eq!(window_geometry(1280, 720, &stored).position, None);
    stored.pos_x = None;
    stored.pos_y = Some(10);
    assert_eq!(window_geometry(1280, 720, &stored).position, None);
    stored.pos_x = Some(-1);
    assert_eq!(
        window_geometry(1280, 720, &stored).position,
        Some(Position { x: -1, y: 10 })
    );
}

#[test]
fn pick_config_takes_the_first_with_the_most_samples() {
    assert_eq!(pick_config(&vec![0]), 0);
    assert_eq!(pick_config(&vec![0, 4, 2, 4, 1]), 1);
    assert_eq!(pick_config(&vec![8, 4, 2, 8]), 0);
    assert_eq!(pick_config(&vec![0, 0, 0]), 0);
    assert_eq!(pick_config(&vec![1, 2, 4, 8, 16]), 4);
    let samples: Vec<u8> = vec![2, 16, 4, 16, 8];
    let reduced = samples
        .iter()
        .enumerate()
        .reduce(|best, next| if next.1 > best.1 { next } else { best })
        .unwrap();
    assert_eq!(pick_config(&samples), reduced.0);
}
