//! One tick's sample of the input devices, as plain values.

use vstd::prelude::*;

verus! {

/// Which of the four directional keys are held.
#[derive(Clone, Copy, Debug, PartialEq, Eq, Structural)]
pub struct DirectionKeys {
    pub up: bool,
    pub down: bool,
    pub right: bool,
    pub left: bool,
}

impl DirectionKeys {
    /// Whether at least one directional key is held.
    pub open spec fn spec_any(self) -> bool {
        self.up || self.down || self.right || self.left
    }

    /// Whether at least one directional key is held.
    #[verifier::when_used_as_spec(spec_any)]
    pub fn any(self) -> (held: bool)
        ensures
            held == self.spec_any(),
    {
        self.up || self.down || self.right || self.left
    }
}

/// Which of the two mouse buttons are held.
#[derive(Clone, Copy, Debug, PartialEq, Eq, Structural)]
pub struct MouseButtons {
    pub left: bool,
    pub right: bool,
}

/// Everything the tick reads from the input devices.
#[derive(Clone, Copy, Debug, PartialEq, Eq, Structural)]
pub struct InputSnapshot {
    pub keys: DirectionKeys,
    pub buttons: MouseButtons,
    /// Whether the cursor is inside the window, so that it has a position.
    pub cursor_in_window: bool,
}

/// What to report about the cursor in this tick.
#[derive(Clone, Copy, Debug, PartialEq, Eq, Structural)]
pub enum CursorReport {
    /// The left button is not held: nothing is reported.
    Silent,
    /// The left button is held and the cursor has a position to report.
    Position,
    /// The left button is held and the cursor is outside the window.
    OutsideWindow,
}

/// The report owed for a button sample and a cursor reading.
pub open spec fn cursor_report_for(buttons: MouseButtons, cursor_in_window: bool) -> CursorReport {
    if !buttons.left {
        CursorReport::Silent
    } else if cursor_in_window {
        CursorReport::Position
    } else {
        CursorReport::OutsideWindow
    }
}

/// How many playback targets the presentation layer holds in this tick.
#[derive(Clone, Copy, Debug, PartialEq, Eq, Structural)]
pub enum PlaybackTargets {
    /// No target is attached yet.
    Absent,
    /// Exactly one target: commands can be issued.
    Single,
    /// More than one target: none can be picked.
    Ambiguous,
}

impl PlaybackTargets {
    /// Whether a play command can be issued in this tick.
    pub open spec fn spec_is_ready(self) -> bool {
        self == PlaybackTargets::Single
    }

    /// Whether a play command can be issued in this tick.
    #[verifier::when_used_as_spec(spec_is_ready)]
    pub fn is_ready(self) -> (ready: bool)
        ensures
            ready == self.spec_is_ready(),
    {
        match self {
            PlaybackTargets::Single => true,
            _ => false,
        }
    }
}

} // verus!
