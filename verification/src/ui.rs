//! What the user interface decides. The host lays out the widgets and tells
//! the library what happened to them, in the order of the layout: the pointer,
//! the menu bar, the toolbar, the viewport, and the end of the frame.

use std::path::PathBuf;
use vstd::prelude::*;
use vstd::string::*;

use crate::app_state::AppState;
use crate::gpu::ViewportRect;
use crate::renderer::Renderer;
use crate::text::{decimal, push_decimal};

verus! {

/// Title of the application as the "About" entry shows it.
pub const ABOUT_TEXT: &'static str = "egui OpenGL App v0.1.0";

/// Something that happened while the interface was laid out.
#[derive(Debug)]
pub enum UiEvent {
    /// The pointer hovers at this position, in tenths of a pixel.
    PointerHover { x: i32, y: i32 },
    /// The menu bar is about to be shown.
    MenuBar,
    /// The file dialog closed with a file chosen.
    FilePicked(PathBuf),
    /// The file dialog closed without a file.
    FileDialogCancelled,
    /// "Open" was chosen in the menu.
    MenuOpen,
    /// "Exit" was chosen in the menu.
    MenuExit,
    /// "About" was chosen in the menu.
    MenuAbout,
    /// The toolbar's open button was pressed.
    ToolbarOpen,
    /// The toolbar's play or pause button was pressed.
    ToolbarPlayPause,
    /// The toolbar's step button was pressed.
    ToolbarStep,
    /// The toolbar's reset button was pressed.
    ToolbarReset,
    /// All widgets have been shown.
    FrameEnd,
}

/// What the host is to do after an event.
#[derive(Clone, Copy, Debug, PartialEq, Eq, Structural)]
pub enum UiAction {
    /// Nothing.
    Nothing,
    /// Show the file dialog, and report how it closed.
    ShowFileDialog,
    /// Close the open menu.
    CloseMenu,
    /// Leave the application: hand the request to the frame loop.
    Exit,
    /// Paint again as soon as this frame is done.
    RequestRepaint,
}

/// What the viewport paints in a frame.
#[derive(Clone, Copy, Debug, PartialEq, Eq, Structural)]
pub struct ViewportPaint {
    /// Where the 3D pass draws.
    pub rect: ViewportRect,
    /// Rotation of the model, in hundredths of a radian.
    pub rotation: u64,
}

/// The status message after a press of the play or pause button.
pub open spec fn play_message(playing: bool) -> Seq<char> {
    if playing {
        "Playing"@
    } else {
        "Paused"@
    }
}

/// The status message after a step to `frame`.
pub open spec fn step_message(frame: u64) -> Seq<char> {
    "Stepped to frame "@ + decimal(frame as nat)
}

/// Whether all of a state but its status message is left as it was.
pub open spec fn only_message_differs(before: AppState, after: AppState) -> bool {
    &&& after.file_open_dialog == before.file_open_dialog
    &&& after.playing == before.playing
    &&& after.mouse_pos == before.mouse_pos
    &&& after.frame_count == before.frame_count
    &&& after.current_file == before.current_file
}

/// Whether an event moves the animation on by a frame in this state.
pub open spec fn steps(state: AppState, event: UiEvent) -> bool {
    event is ToolbarStep || (event is FrameEnd && state.playing)
}

/// The state after an event, as far as the event fixes it.
pub open spec fn follows(before: AppState, event: UiEvent, after: AppState) -> bool {
    match event {
        UiEvent::PointerHover { x, y } => after == (AppState { mouse_pos: (x, y), ..before }),
        UiEvent::MenuBar => after == (AppState { file_open_dialog: false, ..before }),
        UiEvent::FilePicked(path) => {
            &&& after.current_file == Some(path)
            &&& exists|name: Seq<char>| after.status_text@ == "Opened: "@ + name
            &&& after.file_open_dialog == before.file_open_dialog
            &&& after.playing == before.playing
            &&& after.mouse_pos == before.mouse_pos
            &&& after.frame_count == before.frame_count
        },
        UiEvent::FileDialogCancelled => {
            &&& only_message_differs(before, after)
            &&& after.status_text@ == "File open cancelled"@
        },
        UiEvent::MenuOpen | UiEvent::ToolbarOpen => after == (AppState {
            file_open_dialog: true,
            ..before
        }),
        UiEvent::MenuExit => after == before,
        UiEvent::MenuAbout => {
            &&& only_message_differs(before, after)
            &&& after.status_text@ == ABOUT_TEXT@
        },
        UiEvent::ToolbarPlayPause => {
            &&& after.playing == !before.playing
            &&& after.status_text@ == play_message(after.playing)
            &&& after.file_open_dialog == before.file_open_dialog
            &&& after.mouse_pos == before.mouse_pos
            &&& after.frame_count == before.frame_count
            &&& after.current_file == before.current_file
        },
        UiEvent::ToolbarStep => {
            &&& after.frame_count == before.frame_count + 1
            &&& after.status_text@ == step_message(after.frame_count)
            &&& after.file_open_dialog == before.file_open_dialog
            &&& after.playing == before.playing
            &&& after.mouse_pos == before.mouse_pos
            &&& after.current_file == before.current_file
        },
        UiEvent::ToolbarReset => {
            &&& after.frame_count == 0
            &&& !after.playing
            &&& after.status_text@ == "Reset"@
            &&& after.file_open_dialog == before.file_open_dialog
            &&& after.mouse_pos == before.mouse_pos
            &&& after.current_file == before.current_file
        },
        UiEvent::FrameEnd => if before.playing {
            after == (AppState { frame_count: (before.frame_count + 1) as u64, ..before })
        } else {
            after == before
        },
    }
}

/// What the host is asked to do after an event.
pub open spec fn asks(before: AppState, event: UiEvent) -> UiAction {
    match event {
        UiEvent::MenuBar => if before.file_open_dialog {
            UiAction::ShowFileDialog
        } else {
            UiAction::Nothing
        },
        UiEvent::MenuOpen | UiEvent::MenuAbout => UiAction::CloseMenu,
        UiEvent::MenuExit => UiAction::Exit,
        UiEvent::FrameEnd => if before.playing {
            UiAction::RequestRepaint
        } else {
            UiAction::Nothing
        },
        _ => UiAction::Nothing,
    }
}

/// The label of the play or pause button.
pub fn play_button_label(playing: bool) -> (label: &'static str)
    ensures
        label@ == (if playing {
            "\u{23F8} Pause"@
        } else {
            "\u{25B6} Play"@
        }),
{
    if playing {
        "\u{23F8} Pause"
    } else {
        "\u{25B6} Play"
    }
}

/// What the viewport paints in this frame: the rectangle it was given, and
/// the model turned by a hundredth of a radian for each frame of the
/// animation.
pub fn show_viewport(app_state: &AppState, rect: ViewportRect) -> (paint: ViewportPaint)
    ensures
        paint == (ViewportPaint { rect, rotation: app_state.frame_count }),
{
    ViewportPaint { rect, rotation: app_state.frame_count }
}

/// Takes one event of the interface: changes the application's state, and
/// says what the host is to do.
///
/// The menu bar opens the file dialog if one was asked for, and forgets the
/// request. At the end of a frame a playing animation moves on by a frame,
/// the renderer is told the new rotation, and another frame is asked for.
/// "Exit" changes nothing here: the request goes to the frame loop.
pub fn on_ui_event(app_state: &mut AppState, renderer: &mut Renderer, event: UiEvent) -> (action:
    UiAction)
    requires
        steps(*old(app_state), event) ==> old(app_state).frame_count < u64::MAX,
    ensures
        follows(*old(app_state), event, *final(app_state)),
        action == asks(*old(app_state), event),
        final(renderer).rotation() == (if event is FrameEnd && old(app_state).playing {
            final(app_state).frame_count
        } else {
            old(renderer).rotation()
        }),
{
    match event {
        UiEvent::PointerHover { x, y } => {
            app_state.update_mouse(x, y);
            UiAction::Nothing
        },
        UiEvent::MenuBar => {
            let due = app_state.file_open_dialog;
            app_state.file_open_dialog = false;
            if due {
                UiAction::ShowFileDialog
            } else {
                UiAction::Nothing
            }
        },
        UiEvent::FilePicked(path) => {
            app_state.set_current_file(path);
            UiAction::Nothing
        },
        UiEvent::FileDialogCancelled => {
            app_state.set_status("File open cancelled");
            UiAction::Nothing
        },
        UiEvent::MenuOpen => {
            app_state.open_file_dialog();
            UiAction::CloseMenu
        },
        UiEvent::MenuExit => UiAction::Exit,
        UiEvent::MenuAbout => {
            app_state.set_status(ABOUT_TEXT);
            UiAction::CloseMenu
        },
        UiEvent::ToolbarOpen => {
            app_state.open_file_dialog();
            UiAction::Nothing
        },
        UiEvent::ToolbarPlayPause => {
            app_state.toggle_play();
            if app_state.playing {
                app_state.set_status("Playing");
            } else {
                app_state.set_status("Paused");
            }
            UiAction::Nothing
        },
        UiEvent::ToolbarStep => {
            app_state.step();
            let mut message = String::from_str("Stepped to frame ");
            push_decimal(&mut message, app_state.frame_count);
            app_state.status_text = message;
            UiAction::Nothing
        },
        UiEvent::ToolbarReset => {
            app_state.reset();
            app_state.set_status("Reset");
            UiAction::Nothing
        },
        UiEvent::FrameEnd => {
            if app_state.playing {
                app_state.step();
                renderer.update(app_state.frame_count);
                UiAction::RequestRepaint
            } else {
                UiAction::Nothing
            }
        },
    }
}

} // verus!
