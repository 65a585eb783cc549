//! Persisted application settings: the top-level window's geometry and the
//! defaults used where no stored value exists.
//!
//! Reading and writing the settings file is a caller's concern; this module
//! holds the settings values themselves and the rule that fills absent
//! fields with their defaults.

use vstd::prelude::*;

verus! {

/// Window width, in pixels, used where no stored value exists.
pub const DEFAULT_WIDTH: i32 = 800;

/// Window height, in pixels, used where no stored value exists.
pub const DEFAULT_HEIGHT: i32 = 640;

/// Persisted geometry of a top-level window.
#[derive(Clone, Copy, PartialEq, Eq, Structural, Debug)]
pub struct Window {
    pub width: i32,
    pub height: i32,
}

/// The application's settings as a whole.
#[derive(Clone, Copy, PartialEq, Eq, Structural, Debug)]
pub struct Settings {
    pub window: Window,
}

impl Default for Window {
    /// The geometry shown when nothing was stored.
    fn default() -> (w: Window)
        ensures
            w == (Window { width: DEFAULT_WIDTH, height: DEFAULT_HEIGHT }),
    {
        Window { width: DEFAULT_WIDTH, height: DEFAULT_HEIGHT }
    }
}

impl Default for Settings {
    /// The settings used when no settings file could be read.
    fn default() -> (s: Settings)
        ensures
            s == (Settings { window: Window { width: DEFAULT_WIDTH, height: DEFAULT_HEIGHT } }),
    {
        Settings { window: Window { width: DEFAULT_WIDTH, height: DEFAULT_HEIGHT } }
    }
}

impl Window {
    /// Builds a geometry from what a stored settings document held: each
    /// absent field falls back to its default.
    pub fn from_parts(width: Option<i32>, height: Option<i32>) -> (w: Window)
        ensures
            w.width == (match width {
                Some(v) => v,
                None => DEFAULT_WIDTH,
            }),
            w.height == (match height {
                Some(v) => v,
                None => DEFAULT_HEIGHT,
            }),
    {
        Window {
            width: match width {
                Some(v) => v,
                None => DEFAULT_WIDTH,
            },
            height: match height {
                Some(v) => v,
                None => DEFAULT_HEIGHT,
            },
        }
    }
}

} // verus!
