//! The settings that outlive a run: the window's geometry and a few
//! preferences. Reading and writing the file is the host's work; what to do
//! with what was read is decided here.

use std::path::PathBuf;
use vstd::prelude::*;

use crate::paths::{join, platform_config_dir};

verus! {

/// Width of the window where nothing else is known.
pub const DEFAULT_WIDTH: u32 = 1280;

/// Height of the window where nothing else is known.
pub const DEFAULT_HEIGHT: u32 = 720;

/// The bit pattern of the single-precision number one.
pub const UNIT_SPEED_BITS: u32 = 0x3F80_0000;

/// Directory of the settings file, below the platform's configuration
/// directory.
pub const CONFIG_DIRECTORY: &'static str = "egui_opengl_app";

/// Name of the settings file.
pub const CONFIG_FILE: &'static str = "config.json";

/// Size, position and state of the window.
#[derive(Clone, Copy, Debug, PartialEq, Eq, Structural)]
pub struct WindowConfig {
    /// Width in logical pixels.
    pub width: u32,
    /// Height in logical pixels.
    pub height: u32,
    /// Horizontal position; `None` leaves it to the platform.
    pub pos_x: Option<i32>,
    /// Vertical position; `None` leaves it to the platform.
    pub pos_y: Option<i32>,
    /// Whether the window is maximized.
    pub maximized: bool,
}

/// Preferences of the application.
#[derive(Clone, Debug, PartialEq, Eq)]
pub struct AppConfig {
    /// The file that was open last.
    pub last_file: Option<PathBuf>,
    /// Whether the animation plays from the start.
    pub auto_play: bool,
    /// Speed of the animation as a factor, kept as the bit pattern of a
    /// single-precision number. The library hands it on unread.
    pub animation_speed_bits: u32,
}

/// All settings.
#[derive(Clone, Debug, PartialEq, Eq)]
pub struct Config {
    pub window: WindowConfig,
    pub app: AppConfig,
}

/// What the host found where the settings are kept.
#[derive(Debug)]
pub enum ConfigFile {
    /// The platform names no configuration directory.
    NoDirectory,
    /// The file could not be read.
    Unreadable,
    /// The file was read, but it does not hold settings.
    Malformed,
    /// The file holds these settings.
    Parsed(Config),
}

/// The settings to run with, and whether to write them to the file.
#[derive(Debug)]
pub struct Loaded {
    pub config: Config,
    pub write_back: bool,
}

impl Config {
    /// The settings of a first run: a window of 1280 by 720 placed by the
    /// platform, not maximized; no last file, the animation paused, at unit
    /// speed.
    pub open spec fn initial() -> Config {
        Config {
            window: WindowConfig {
                width: DEFAULT_WIDTH,
                height: DEFAULT_HEIGHT,
                pos_x: None,
                pos_y: None,
                maximized: false,
            },
            app: AppConfig {
                last_file: None,
                auto_play: false,
                animation_speed_bits: UNIT_SPEED_BITS,
            },
        }
    }

    /// The settings file below a configuration directory, if there is one.
    pub fn config_path_in(dir: Option<PathBuf>) -> (path: Option<PathBuf>)
        ensures
            path is Some <==> dir is Some,
    {
        match dir {
            Some(dir) => {
                let below = join(&dir, CONFIG_DIRECTORY);
                Some(join(&below, CONFIG_FILE))
            },
            None => None,
        }
    }

    /// The settings file below the platform's configuration directory, if
    /// the platform names one.
    pub fn config_path() -> (path: Option<PathBuf>) {
        Config::config_path_in(platform_config_dir())
    }

    /// Decides which settings to run with.
    ///
    /// Settings that were read are used as they are. In every other case the
    /// settings are those of a first run; they are written to the file only
    /// where the file could not be read, so that a file that holds something
    /// else is not overwritten.
    pub fn load(found: ConfigFile) -> (loaded: Loaded)
        ensures
            match found {
                ConfigFile::Parsed(config) => loaded.config == config && !loaded.write_back,
                ConfigFile::Unreadable => loaded.config == Config::initial() && loaded.write_back,
                _ => loaded.config == Config::initial() && !loaded.write_back,
            },
    {
        match found {
            ConfigFile::Parsed(config) => Loaded { config, write_back: false },
            ConfigFile::Unreadable => Loaded { config: Config::default(), write_back: true },
            _ => Loaded { config: Config::default(), write_back: false },
        }
    }

    /// Records where the window is.
    pub fn update_window_pos(&mut self, x: i32, y: i32)
        ensures
            final(self).window == (WindowConfig {
                pos_x: Some(x),
                pos_y: Some(y),
                ..old(self).window
            }),
            final(self).app == old(self).app,
    {
        self.window.pos_x = Some(x);
        self.window.pos_y = Some(y);
    }

    /// Records how large the window is.
    pub fn update_window_size(&mut self, width: u32, height: u32)
        ensures
            final(self).window == (WindowConfig { width, height, ..old(self).window }),
            final(self).app == old(self).app,
    {
        self.window.width = width;
        self.window.height = height;
    }
}

impl Default for Config {
    /// The settings of a first run.
    fn default() -> (config: Config)
        ensures
            config == Config::initial(),
    {
        Config {
            window: WindowConfig {
                width: DEFAULT_WIDTH,
                height: DEFAULT_HEIGHT,
                pos_x: None,
                pos_y: None,
                maximized: false,
            },
            app: AppConfig {
                last_file: None,
                auto_play: false,
                animation_speed_bits: UNIT_SPEED_BITS,
            },
        }
    }
}

} // verus!
