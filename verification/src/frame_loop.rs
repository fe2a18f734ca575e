//! The window and its frame loop: the order in which the platform's resources
//! are made, what each window event leads to, and the steps of one frame.
//!
//! The loop is in one of four phases. It starts uninitialized, is
//! initializing while the host makes the window and the graphics context, is
//! ready once the renderer exists, and is disposed after the request to
//! leave. It never goes back. Events count only while it is ready.

use vstd::prelude::*;

use crate::app_state::AppState;
use crate::config::{Config, WindowConfig, DEFAULT_HEIGHT, DEFAULT_WIDTH};
use crate::gpu::{ClearTarget, GlCommand, Rgba, ViewportRect};
use crate::renderer::Renderer;

verus! {

/// Title of the window.
pub const WINDOW_TITLE: &'static str = "egui OpenGL App";

/// Major version of the graphics API that the context must offer.
pub const CONTEXT_VERSION_MAJOR: u8 = 4;

/// Minor version of the graphics API that the context must offer.
pub const CONTEXT_VERSION_MINOR: u8 = 5;

/// The background of a frame: a dark gray, opaque.
pub open spec fn background() -> Rgba {
    Rgba { red: 1, green: 1, blue: 1, alpha: 10 }
}

/// A position on the screen, in physical pixels.
#[derive(Clone, Copy, Debug, PartialEq, Eq, Structural)]
pub struct Position {
    pub x: i32,
    pub y: i32,
}

/// The geometry that the window is asked for.
#[derive(Clone, Copy, Debug, PartialEq, Eq, Structural)]
pub struct WindowGeometry {
    pub width: u32,
    pub height: u32,
    /// Where to place the window; `None` leaves it to the platform.
    pub position: Option<Position>,
    pub maximized: bool,
}

/// One step of bringing the window up.
#[derive(Clone, Copy, Debug, PartialEq, Eq, Structural)]
pub enum InitStep {
    /// Create the window with this geometry, and choose the display
    /// configuration.
    CreateWindow(WindowGeometry),
    /// Negotiate a graphics context of at least this version.
    CreateContext { major: u8, minor: u8 },
    /// Build the drawable surface of the window.
    CreateSurface,
    /// Make the context current on this thread, with the surface.
    MakeCurrent,
    /// Load the table of device functions.
    LoadFunctions,
    /// Ask the surface not to wait for the vertical blank. A refusal is
    /// logged and otherwise ignored.
    DisableVsync,
    /// Create the user interface and its painter.
    CreateUi,
    /// Build the shader program and the renderer.
    CreateRenderer,
}

/// A key that the loop reacts to.
#[derive(Clone, Copy, Debug, PartialEq, Eq, Structural)]
pub enum Key {
    Space,
    ArrowUp,
    ArrowLeft,
    ArrowRight,
    KeyR,
    Escape,
    /// Any other key.
    Other,
}

/// An event of the window.
#[derive(Clone, Copy, Debug, PartialEq, Eq, Structural)]
pub enum WindowEvent {
    /// The user asked to close the window.
    CloseRequested,
    /// A key went down.
    KeyPressed(Key),
    /// The window has a new size.
    Resized { width: u32, height: u32 },
    /// The window has a new position.
    Moved { x: i32, y: i32 },
    /// The window is to be painted.
    RedrawRequested,
    /// The event queue is empty.
    AboutToWait,
    /// Any other event.
    Other,
}

/// Something for the host to do, in the order given.
#[derive(Clone, Copy, Debug, PartialEq, Eq, Structural)]
pub enum Action {
    /// Hand the event to the user interface.
    ForwardToUi,
    /// Leave the event loop.
    Exit,
    /// Ask for the window to be painted.
    RequestRedraw,
    /// Give the surface this size.
    ResizeSurface { width: u32, height: u32 },
    /// Run a command on the device.
    Gpu(GlCommand),
    /// Write the settings to their file.
    SaveConfig,
    /// Collect the input that arrived since the last frame.
    CaptureInput,
    /// Lay out the user interface; this schedules the 3D pass.
    LayoutUi,
    /// Pass the interface's requests to the platform on.
    HandlePlatformOutput,
    /// Turn the interface's shapes into triangles.
    Tessellate,
    /// Paint the triangles; the 3D pass runs among them.
    PaintUi,
    /// Upload the textures that the interface changed.
    UpdateTextures,
    /// Release the textures that the interface dropped.
    FreeTextures,
    /// Show the frame. A failure here cannot be recovered from.
    Present,
}

/// What exists while the loop is ready.
#[derive(Debug)]
pub struct Session {
    /// Size of the drawable surface.
    pub surface_size: (u32, u32),
    pub app_state: AppState,
    pub renderer: Renderer,
}

/// The phase of the loop, with what exists in it.
#[derive(Debug)]
pub enum Lifecycle {
    Uninitialized,
    Initializing(WindowGeometry),
    Ready(Session),
    Disposed,
}

/// The frame loop of one window.
#[derive(Debug)]
pub struct FrameLoop {
    pub config: Config,
    pub lifecycle: Lifecycle,
}

/// The geometry to ask for: a size given on the command line wins over the
/// stored one, unless it is the default; the window is placed only where both
/// coordinates are stored.
pub open spec fn chosen_geometry(cli_width: u32, cli_height: u32, stored: WindowConfig)
    -> WindowGeometry {
    WindowGeometry {
        width: if cli_width != DEFAULT_WIDTH {
            cli_width
        } else {
            stored.width
        },
        height: if cli_height != DEFAULT_HEIGHT {
            cli_height
        } else {
            stored.height
        },
        position: match (stored.pos_x, stored.pos_y) {
            (Some(x), Some(y)) => Some(Position { x, y }),
            _ => None,
        },
        maximized: stored.maximized,
    }
}

/// The steps that bring the window up, in their order: the window, then the
/// context, then the surface, then the function table, then what draws.
pub open spec fn init_steps(geometry: WindowGeometry) -> Seq<InitStep> {
    seq![
        InitStep::CreateWindow(geometry),
        InitStep::CreateContext { major: CONTEXT_VERSION_MAJOR, minor: CONTEXT_VERSION_MINOR },
        InitStep::CreateSurface,
        InitStep::MakeCurrent,
        InitStep::LoadFunctions,
        InitStep::DisableVsync,
        InitStep::CreateUi,
        InitStep::CreateRenderer,
    ]
}

/// The steps of one frame, in their order.
pub open spec fn frame_actions() -> Seq<Action> {
    seq![
        Action::CaptureInput,
        Action::LayoutUi,
        Action::HandlePlatformOutput,
        Action::Tessellate,
        Action::Gpu(GlCommand::ClearColor(background())),
        Action::Gpu(GlCommand::Clear(ClearTarget::ColorAndDepth)),
        Action::PaintUi,
        Action::UpdateTextures,
        Action::FreeTextures,
        Action::Present,
        Action::RequestRedraw,
    ]
}

/// How far a loop has come: phases are passed in this order only.
pub open spec fn progress(lifecycle: Lifecycle) -> nat {
    match lifecycle {
        Lifecycle::Uninitialized => 0,
        Lifecycle::Initializing(_) => 1,
        Lifecycle::Ready(_) => 2,
        Lifecycle::Disposed => 3,
    }
}

/// Whether an event ends the loop.
pub open spec fn leaves(event: WindowEvent) -> bool {
    event == WindowEvent::CloseRequested || event == WindowEvent::KeyPressed(Key::Escape)
}

/// The application's state after a key.
pub open spec fn after_key(state: AppState, key: Key) -> AppState {
    match key {
        Key::Space | Key::ArrowUp => AppState { playing: !state.playing, ..state },
        Key::ArrowLeft | Key::KeyR => AppState { frame_count: 0, playing: false, ..state },
        Key::ArrowRight => AppState { frame_count: (state.frame_count + 1) as u64, ..state },
        _ => state,
    }
}

/// The session after an event that does not end the loop.
pub open spec fn session_after(session: Session, event: WindowEvent) -> Session {
    match event {
        WindowEvent::KeyPressed(key) => Session {
            app_state: after_key(session.app_state, key),
            ..session
        },
        WindowEvent::Resized { width, height } => Session {
            surface_size: (width, height),
            ..session
        },
        _ => session,
    }
}

/// The settings after an event.
pub open spec fn config_after(config: Config, event: WindowEvent) -> Config {
    match event {
        WindowEvent::Resized { width, height } => Config {
            window: WindowConfig { width, height, ..config.window },
            ..config
        },
        WindowEvent::Moved { x, y } => Config {
            window: WindowConfig { pos_x: Some(x), pos_y: Some(y), ..config.window },
            ..config
        },
        _ => config,
    }
}

/// The loop after an event. Only a ready loop changes.
pub open spec fn after_event(before: FrameLoop, event: WindowEvent) -> FrameLoop {
    match before.lifecycle {
        Lifecycle::Ready(session) => if leaves(event) {
            FrameLoop { config: before.config, lifecycle: Lifecycle::Disposed }
        } else {
            FrameLoop {
                config: config_after(before.config, event),
                lifecycle: Lifecycle::Ready(session_after(session, event)),
            }
        },
        _ => before,
    }
}

/// What a ready loop asks of the host after an event, following the handing
/// of the event to the user interface.
pub open spec fn reaction(event: WindowEvent) -> Seq<Action> {
    match event {
        WindowEvent::CloseRequested => seq![Action::Exit],
        WindowEvent::KeyPressed(Key::Escape) => seq![Action::Exit],
        WindowEvent::KeyPressed(Key::Other) => Seq::empty(),
        WindowEvent::KeyPressed(_) => seq![Action::RequestRedraw],
        WindowEvent::Resized { width, height } => seq![
            Action::ResizeSurface { width, height },
            Action::Gpu(GlCommand::Viewport(ViewportRect::full_window(width, height))),
            Action::SaveConfig,
        ],
        WindowEvent::Moved { .. } => seq![Action::SaveConfig],
        WindowEvent::RedrawRequested => frame_actions(),
        WindowEvent::AboutToWait => seq![Action::RequestRedraw],
        WindowEvent::Other => Seq::empty(),
    }
}

/// What the loop asks of the host after an event. A loop that is not ready
/// asks for nothing. A ready loop hands every event but the empty queue to
/// the user interface first.
pub open spec fn event_actions(before: FrameLoop, event: WindowEvent) -> Seq<Action> {
    if before.lifecycle is Ready {
        if event == WindowEvent::AboutToWait {
            reaction(event)
        } else {
            seq![Action::ForwardToUi] + reaction(event)
        }
    } else {
        Seq::empty()
    }
}

/// What a ready loop needs of an event: a size that a surface and a viewport
/// can have, and room for one more frame where the event steps.
pub open spec fn acceptable(before: FrameLoop, event: WindowEvent) -> bool {
    before.lifecycle matches Lifecycle::Ready(session) ==> match event {
        WindowEvent::Resized { width, height } => 0 < width <= i32::MAX && 0 < height <= i32::MAX,
        WindowEvent::KeyPressed(Key::ArrowRight) => session.app_state.frame_count < u64::MAX,
        _ => true,
    }
}

/// The index of the display configuration to use: the first of those with
/// the most samples per pixel.
pub fn pick_config(samples: &Vec<u8>) -> (best: usize)
    requires
        samples.len() > 0,
    ensures
        best < samples.len(),
        forall|i: int| 0 <= i < samples.len() ==> samples[i] <= samples[best as int],
        forall|i: int| 0 <= i < best ==> samples[i] < samples[best as int],
{
    let mut best: usize = 0;
    let mut i: usize = 1;
    while i < samples.len()
        invariant
            1 <= i <= samples.len(),
            best < i,
            forall|j: int| 0 <= j < i ==> samples[j] <= samples[best as int],
            forall|j: int| 0 <= j < best ==> samples[j] < samples[best as int],
        decreases samples.len() - i,
    {
        if samples[i] > samples[best] {
            best = i;
        }
        i += 1;
    }
    best
}

/// The geometry to ask for, from the command line and the stored settings.
pub fn window_geometry(cli_width: u32, cli_height: u32, stored: &WindowConfig) -> (geometry:
    WindowGeometry)
    ensures
        geometry == chosen_geometry(cli_width, cli_height, *stored),
{
    let width = if cli_width != DEFAULT_WIDTH {
        cli_width
    } else {
        stored.width
    };
    let height = if cli_height != DEFAULT_HEIGHT {
        cli_height
    } else {
        stored.height
    };
    let position = match (stored.pos_x, stored.pos_y) {
        (Some(x), Some(y)) => Some(Position { x, y }),
        _ => None,
    };
    WindowGeometry { width, height, position, maximized: stored.maximized }
}

impl FrameLoop {
    /// A loop that has not begun, with the settings to run with.
    pub fn new(config: Config) -> (frame_loop: FrameLoop)
        ensures
            frame_loop.config == config,
            frame_loop.lifecycle is Uninitialized,
    {
        FrameLoop { config, lifecycle: Lifecycle::Uninitialized }
    }

    /// Begins to bring the window up, and says in which order the host makes
    /// what. A loop that has begun before does not begin again: it answers
    /// `None` and stays as it is.
    pub fn initialize(&mut self, geometry: WindowGeometry) -> (steps: Option<Vec<InitStep>>)
        ensures
            final(self).config == old(self).config,
            old(self).lifecycle is Uninitialized ==> final(self).lifecycle
                == Lifecycle::Initializing(geometry) && steps is Some && steps->0@ == init_steps(
                geometry,
            ),
            !(old(self).lifecycle is Uninitialized) ==> {
                &&& final(self).lifecycle == old(self).lifecycle
                &&& steps is None
            },
            progress(final(self).lifecycle) >= progress(old(self).lifecycle),
    {
        match self.lifecycle {
            Lifecycle::Uninitialized => {},
            _ => {
                return None;
            },
        }
        self.lifecycle = Lifecycle::Initializing(geometry);
        let mut steps: Vec<InitStep> = Vec::new();
        steps.push(InitStep::CreateWindow(geometry));
        steps.push(
            InitStep::CreateContext { major: CONTEXT_VERSION_MAJOR, minor: CONTEXT_VERSION_MINOR },
        );
        steps.push(InitStep::CreateSurface);
        steps.push(InitStep::MakeCurrent);
        steps.push(InitStep::LoadFunctions);
        steps.push(InitStep::DisableVsync);
        steps.push(InitStep::CreateUi);
        steps.push(InitStep::CreateRenderer);
        assert(steps@ =~= init_steps(geometry));
        Some(steps)
    }

    /// Ends the bringing up: with the renderer made, the loop is ready. The
    /// surface has the size that the window was asked for, and the
    /// application's state is that of a start. A loop that is not
    /// initializing stays as it is and answers `false`.
    pub fn ready(&mut self, renderer: Renderer) -> (entered: bool)
        ensures
            final(self).config == old(self).config,
            entered == (old(self).lifecycle is Initializing),
            old(self).lifecycle matches Lifecycle::Initializing(geometry) ==> {
                &&& final(self).lifecycle matches Lifecycle::Ready(session)
                &&& session.surface_size == (geometry.width, geometry.height)
                &&& session.renderer == renderer
                &&& session.app_state.is_fresh()
            },
            !(old(self).lifecycle is Initializing) ==> final(self).lifecycle == old(self).lifecycle,
            progress(final(self).lifecycle) >= progress(old(self).lifecycle),
    {
        let geometry = match self.lifecycle {
            Lifecycle::Initializing(geometry) => geometry,
            _ => {
                return false;
            },
        };
        self.lifecycle = Lifecycle::Ready(
            Session {
                surface_size: (geometry.width, geometry.height),
                app_state: AppState::new(),
                renderer,
            },
        );
        true
    }

    /// Size of the drawable surface, while the loop is ready.
    pub fn surface_size(&self) -> (size: Option<(u32, u32)>)
        ensures
            size == (match self.lifecycle {
                Lifecycle::Ready(session) => Some(session.surface_size),
                _ => None,
            }),
    {
        match &self.lifecycle {
            Lifecycle::Ready(session) => Some(session.surface_size),
            _ => None,
        }
    }

    /// Ends the loop on a request that did not come as a window event. A
    /// ready loop is disposed and asks the host to leave; any other loop
    /// stays as it is and asks for nothing.
    pub fn request_exit(&mut self) -> (actions: Vec<Action>)
        ensures
            final(self).config == old(self).config,
            old(self).lifecycle is Ready ==> final(self).lifecycle is Disposed && actions@
                == seq![Action::Exit],
            !(old(self).lifecycle is Ready) ==> final(self).lifecycle == old(self).lifecycle
                && actions@.len() == 0,
            progress(final(self).lifecycle) >= progress(old(self).lifecycle),
    {
        let mut actions: Vec<Action> = Vec::new();
        match self.lifecycle {
            Lifecycle::Ready(_) => {},
            _ => {
                return actions;
            },
        }
        self.lifecycle = Lifecycle::Disposed;
        actions.push(Action::Exit);
        actions
    }

    /// Takes one event of the window: changes the loop's state, and says
    /// what the host is to do, in order.
    ///
    /// Closing the window and the escape key end the loop. Space and the up
    /// arrow switch between playing and paused; the left arrow and R go back
    /// to frame 0 and pause; the right arrow steps one frame. A new size goes
    /// to the surface, then to the viewport, then into the settings; a new
    /// position goes into the settings. A redraw runs the steps of one frame
    /// and asks for the next.
    pub fn handle_event(&mut self, event: WindowEvent) -> (actions: Vec<Action>)
        requires
            acceptable(*old(self), event),
        ensures
            *final(self) == after_event(*old(self), event),
            actions@ == event_actions(*old(self), event),
            progress(final(self).lifecycle) >= progress(old(self).lifecycle),
    {
        let mut actions: Vec<Action> = Vec::new();
        let ghost before = *self;
        match &mut self.lifecycle {
            Lifecycle::Ready(session) => {
                match event {
                    WindowEvent::AboutToWait => {
                        actions.push(Action::RequestRedraw);
                    },
                    WindowEvent::CloseRequested => {
                        actions.push(Action::ForwardToUi);
                        actions.push(Action::Exit);
                    },
                    WindowEvent::KeyPressed(key) => {
                        actions.push(Action::ForwardToUi);
                        match key {
                            Key::Space | Key::ArrowUp => {
                                session.app_state.toggle_playing();
                                actions.push(Action::RequestRedraw);
                            },
                            Key::ArrowLeft | Key::KeyR => {
                                session.app_state.reset();
                                actions.push(Action::RequestRedraw);
                            },
                            Key::ArrowRight => {
                                session.app_state.step();
                                actions.push(Action::RequestRedraw);
                            },
                            Key::Escape => {
                                actions.push(Action::Exit);
                            },
                            Key::Other => {},
                        }
                    },
                    WindowEvent::Resized { width, height } => {
                        actions.push(Action::ForwardToUi);
                        actions.push(Action::ResizeSurface { width, height });
                        session.surface_size = (width, height);
                        let mut commands = session.renderer.resize(width, height);
                        assert(commands@.len() == 1);
                        actions.push(Action::Gpu(commands[0]));
                        self.config.update_window_size(width, height);
                        actions.push(Action::SaveConfig);
                    },
                    WindowEvent::Moved { x, y } => {
                        actions.push(Action::ForwardToUi);
                        self.config.update_window_pos(x, y);
                        actions.push(Action::SaveConfig);
                    },
                    WindowEvent::RedrawRequested => {
                        actions.push(Action::ForwardToUi);
                        actions.push(Action::CaptureInput);
                        actions.push(Action::LayoutUi);
                        actions.push(Action::HandlePlatformOutput);
                        actions.push(Action::Tessellate);
                        let gray = Rgba { red: 1, green: 1, blue: 1, alpha: 10 };
                        actions.push(Action::Gpu(GlCommand::ClearColor(gray)));
                        actions.push(Action::Gpu(GlCommand::Clear(ClearTarget::ColorAndDepth)));
                        actions.push(Action::PaintUi);
                        actions.push(Action::UpdateTextures);
                        actions.push(Action::FreeTextures);
                        actions.push(Action::Present);
                        actions.push(Action::RequestRedraw);
                    },
                    WindowEvent::Other => {
                        actions.push(Action::ForwardToUi);
                    },
                }
            },
            _ => {
                return actions;
            },
        }
        let ends = match event {
            WindowEvent::CloseRequested => true,
            WindowEvent::KeyPressed(Key::Escape) => true,
            _ => false,
        };
        if ends {
            self.lifecycle = Lifecycle::Disposed;
        }
        assert(actions@ =~= event_actions(before, event));
        actions
    }
}

/// A resize gives the surface the new size, whatever size it had; the same
/// resize a second time changes nothing.
pub proof fn lemma_resize_sets_surface(before: FrameLoop, width: u32, height: u32)
    requires
        before.lifecycle is Ready,
    ensures
        ({
            let resized = WindowEvent::Resized { width, height };
            let after = after_event(before, resized);
            &&& after.lifecycle matches Lifecycle::Ready(session)
            &&& session.surface_size == (width, height)
            &&& after_event(after, resized) == after
        }),
{
}

/// A loop that is not ready ignores every event: it stays as it is and asks
/// for nothing.
pub proof fn lemma_events_need_ready(before: FrameLoop, event: WindowEvent)
    requires
        !(before.lifecycle is Ready),
    ensures
        after_event(before, event) == before,
        event_actions(before, event).len() == 0,
{
}

/// A frame shows itself once, after everything else of the frame, and the
/// next frame is asked for after that.
pub proof fn lemma_frame_presents_once(before: FrameLoop)
    requires
        before.lifecycle is Ready,
    ensures
        ({
            let actions = event_actions(before, WindowEvent::RedrawRequested);
            &&& actions.len() == 12
            &&& actions[10] == Action::Present
            &&& actions[11] == Action::RequestRedraw
            &&& forall|i: int| 0 <= i < 12 && i != 10 ==> actions[i] != Action::Present
            &&& after_event(before, WindowEvent::RedrawRequested) == before
        }),
{
}

} // verus!
