//! What the application remembers from frame to frame: whether the animation
//! plays, which frame it is at, where the pointer is, which file is open, and
//! the line of text for the status bar.

use std::path::PathBuf;
use vstd::prelude::*;
use vstd::string::*;

use crate::paths::display_name;
use crate::text::{decimal, push_decimal, push_tenths, tenths_text};

verus! {

/// The state of the application.
#[derive(Debug)]
pub struct AppState {
    /// Set when the file dialog is to open at the next frame.
    pub file_open_dialog: bool,
    /// Whether the animation is playing.
    pub playing: bool,
    /// Position of the pointer, in tenths of a pixel.
    pub mouse_pos: (i32, i32),
    /// Last message for the status bar.
    pub status_text: String,
    /// Frame of the animation.
    pub frame_count: u64,
    /// The file that is open, if any.
    pub current_file: Option<PathBuf>,
}

/// The line of the status bar: pointer, frame, the open file's name if a file
/// is open, and the last message unless it is empty.
pub open spec fn status_line(
    mouse_pos: (i32, i32),
    frame_count: u64,
    file_name: Option<Seq<char>>,
    status_text: Seq<char>,
) -> Seq<char> {
    let file = match file_name {
        Some(name) => " | File: "@ + name,
        None => Seq::<char>::empty(),
    };
    let message = if status_text.len() > 0 {
        " | "@ + status_text
    } else {
        Seq::<char>::empty()
    };
    "Mouse: ("@ + tenths_text(mouse_pos.0 as int) + ", "@ + tenths_text(mouse_pos.1 as int)
        + ") | Frame: "@ + decimal(frame_count as nat) + file + message
}

impl AppState {
    /// Whether the state is that of a start: paused at frame 0, the pointer
    /// at the origin, no file, no dialog asked for, the message "Ready".
    pub open spec fn is_fresh(&self) -> bool {
        &&& !self.file_open_dialog
        &&& !self.playing
        &&& self.mouse_pos == (0i32, 0i32)
        &&& self.status_text@ == "Ready"@
        &&& self.frame_count == 0
        &&& self.current_file is None
    }

    /// The state at startup.
    pub fn new() -> (state: AppState)
        ensures
            state.is_fresh(),
    {
        AppState {
            file_open_dialog: false,
            playing: false,
            mouse_pos: (0, 0),
            status_text: String::from_str("Ready"),
            frame_count: 0,
            current_file: None,
        }
    }

    /// Switches between playing and paused.
    pub fn toggle_play(&mut self)
        ensures
            final(self).playing == !old(self).playing,
            final(self).file_open_dialog == old(self).file_open_dialog,
            final(self).mouse_pos == old(self).mouse_pos,
            final(self).status_text == old(self).status_text,
            final(self).frame_count == old(self).frame_count,
            final(self).current_file == old(self).current_file,
    {
        self.playing = !self.playing;
    }

    /// Switches between playing and paused; the same as [`AppState::toggle_play`].
    pub fn toggle_playing(&mut self)
        ensures
            final(self).playing == !old(self).playing,
            final(self).file_open_dialog == old(self).file_open_dialog,
            final(self).mouse_pos == old(self).mouse_pos,
            final(self).status_text == old(self).status_text,
            final(self).frame_count == old(self).frame_count,
            final(self).current_file == old(self).current_file,
    {
        self.toggle_play();
    }

    /// Moves the animation on by one frame.
    pub fn step(&mut self)
        requires
            old(self).frame_count < u64::MAX,
        ensures
            final(self).frame_count == old(self).frame_count + 1,
            final(self).playing == old(self).playing,
            final(self).file_open_dialog == old(self).file_open_dialog,
            final(self).mouse_pos == old(self).mouse_pos,
            final(self).status_text == old(self).status_text,
            final(self).current_file == old(self).current_file,
    {
        self.frame_count += 1;
    }

    /// Goes back to frame 0 and pauses.
    pub fn reset(&mut self)
        ensures
            final(self).frame_count == 0,
            !final(self).playing,
            final(self).file_open_dialog == old(self).file_open_dialog,
            final(self).mouse_pos == old(self).mouse_pos,
            final(self).status_text == old(self).status_text,
            final(self).current_file == old(self).current_file,
    {
        self.frame_count = 0;
        self.playing = false;
    }

    /// Records where the pointer is, in tenths of a pixel.
    pub fn update_mouse(&mut self, x: i32, y: i32)
        ensures
            final(self).mouse_pos == (x, y),
            final(self).playing == old(self).playing,
            final(self).file_open_dialog == old(self).file_open_dialog,
            final(self).status_text == old(self).status_text,
            final(self).frame_count == old(self).frame_count,
            final(self).current_file == old(self).current_file,
    {
        self.mouse_pos = (x, y);
    }

    /// The line of the status bar, with the open file shown under the given
    /// name.
    pub fn status_with(&self, file_name: Option<&str>) -> (line: String)
        ensures
            line@ == status_line(
                self.mouse_pos,
                self.frame_count,
                match file_name {
                    Some(name) => Some(name@),
                    None => None,
                },
                self.status_text@,
            ),
    {
        let mut line = String::from_str("Mouse: (");
        push_tenths(&mut line, self.mouse_pos.0);
        line.append(", ");
        push_tenths(&mut line, self.mouse_pos.1);
        line.append(") | Frame: ");
        push_decimal(&mut line, self.frame_count);
        let ghost head = line@;
        let ghost file = match file_name {
            Some(name) => " | File: "@ + name@,
            None => Seq::<char>::empty(),
        };
        match file_name {
            Some(name) => {
                line.append(" | File: ");
                line.append(name);
            },
            None => {},
        }
        assert(line@ =~= head + file);
        if !self.status_text.as_str().is_empty() {
            line.append(" | ");
            line.append(self.status_text.as_str());
        }
        assert(line@ =~= status_line(
            self.mouse_pos,
            self.frame_count,
            match file_name {
                Some(name) => Some(name@),
                None => None,
            },
            self.status_text@,
        ));
        line
    }

    /// The line of the status bar. An open file is shown under the last
    /// component of its path.
    pub fn get_status(&self) -> (line: String)
        ensures
            self.current_file is None ==> line@ == status_line(
                self.mouse_pos,
                self.frame_count,
                None,
                self.status_text@,
            ),
            self.current_file is Some ==> exists|name: Seq<char>|
                line@ == status_line(
                    self.mouse_pos,
                    self.frame_count,
                    Some(name),
                    self.status_text@,
                ),
    {
        match &self.current_file {
            Some(path) => {
                let name = display_name(path);
                self.status_with(Some(name.as_str()))
            },
            None => self.status_with(None),
        }
    }

    /// Makes `file_path` the open file, shown under `name`, and says so in
    /// the status message.
    pub fn opened(&mut self, file_path: PathBuf, name: &str)
        ensures
            final(self).current_file == Some(file_path),
            final(self).status_text@ == "Opened: "@ + name@,
            final(self).playing == old(self).playing,
            final(self).file_open_dialog == old(self).file_open_dialog,
            final(self).mouse_pos == old(self).mouse_pos,
            final(self).frame_count == old(self).frame_count,
    {
        let mut text = String::from_str("Opened: ");
        text.append(name);
        self.current_file = Some(file_path);
        self.status_text = text;
    }

    /// Makes `file_path` the open file and says so in the status message,
    /// naming the file by the last component of its path.
    pub fn set_current_file(&mut self, file_path: PathBuf)
        ensures
            final(self).current_file == Some(file_path),
            exists|name: Seq<char>| final(self).status_text@ == "Opened: "@ + name,
            final(self).playing == old(self).playing,
            final(self).file_open_dialog == old(self).file_open_dialog,
            final(self).mouse_pos == old(self).mouse_pos,
            final(self).frame_count == old(self).frame_count,
    {
        let name = display_name(&file_path);
        self.opened(file_path, name.as_str());
    }

    /// Asks for the file dialog to open at the next frame.
    pub fn open_file_dialog(&mut self)
        ensures
            final(self).file_open_dialog,
            final(self).playing == old(self).playing,
            final(self).mouse_pos == old(self).mouse_pos,
            final(self).status_text == old(self).status_text,
            final(self).frame_count == old(self).frame_count,
            final(self).current_file == old(self).current_file,
    {
        self.file_open_dialog = true;
    }

    /// Replaces the status message.
    pub fn set_status(&mut self, message: &str)
        ensures
            final(self).status_text@ == message@,
            final(self).playing == old(self).playing,
            final(self).file_open_dialog == old(self).file_open_dialog,
            final(self).mouse_pos == old(self).mouse_pos,
            final(self).frame_count == old(self).frame_count,
            final(self).current_file == old(self).current_file,
    {
        self.status_text = String::from_str(message);
    }
}

} // verus!
