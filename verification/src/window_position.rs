//! What is remembered of the window between two runs, as far as it takes
//! no arithmetic on pixels: the mode of the window and when to save.

use crate::clock::{elapsed_nanos, MonotonicInstant};
use crate::naming::text_of_str;
use crate::text::{eq_ignore_ascii_case, same_ignoring_ascii_case};
use vstd::prelude::*;
use vstd::string::*;

verus! {

/// The name of the file that holds the window geometry, in the `conf`
/// directory.
pub const WINDOW_POSITION_FILE_NAME: &'static str = "window_position.toml";

/// While the window is moved or resized its geometry is saved at most this
/// often: once a second, in nanoseconds.
pub const WINDOW_POSITION_SAVE_INTERVAL_NANOS: u64 = 1_000_000_000;

/// The mode of the window that is remembered. A minimized window is not.
#[derive(Debug, Clone, Copy, PartialEq, Eq, Structural)]
pub enum PersistedWindowMode {
    Windowed,
    Maximized,
    Fullscreen,
}

/// Whether the session is a Wayland session, in which a window cannot be
/// put at an exact position: the Wayland display is named, or the session
/// type reads `wayland` in any case of the letters.
pub open spec fn is_wayland_session(wayland_display_set: bool, session_type: Option<Seq<char>>) -> bool {
    wayland_display_set || (session_type matches Some(kind) && same_ignoring_ascii_case(
        kind,
        "wayland"@,
    ))
}

/// Whether the remembered position of the window is to be ignored, given
/// what the environment says of the session: see [`is_wayland_session`].
pub fn should_ignore_exact_position_for_wayland(
    wayland_display_set: bool,
    session_type: Option<&str>,
) -> (ignore: bool)
    ensures
        ignore == is_wayland_session(wayland_display_set, text_of_str(session_type)),
{
    if wayland_display_set {
        return true;
    }
    match session_type {
        Some(kind) => eq_ignore_ascii_case(kind, "wayland"),
        None => false,
    }
}

/// Whether the geometry is saved at `now`, after a change of the window:
/// when it was never saved, or last saved at least the interval ago.
pub open spec fn save_is_due(last_save: Option<MonotonicInstant>, now: MonotonicInstant) -> bool {
    match last_save {
        None => true,
        Some(last) => elapsed_nanos(now, last) >= WINDOW_POSITION_SAVE_INTERVAL_NANOS,
    }
}

/// Whether the geometry is saved at `now`: see [`save_is_due`].
pub fn should_save_window_position(last_save: Option<MonotonicInstant>, now: MonotonicInstant) -> (due:
    bool)
    ensures
        due == save_is_due(last_save, now),
{
    match last_save {
        None => true,
        Some(last) => now.saturating_duration_since(last).nanos
            >= WINDOW_POSITION_SAVE_INTERVAL_NANOS,
    }
}

} // verus!
