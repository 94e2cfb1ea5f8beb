//! One whole tick: the state resolver first, the animation selector after it.

use vstd::prelude::*;
use crate::animation::{PlayLooping, keyboard_animation_control, previous_after_selection, selection};
use crate::input::{CursorReport, InputSnapshot, PlaybackTargets, cursor_report_for};
use crate::movement::{Motion, move_player, move_player_by_mouse, state_after_input, steps_for};
use crate::player::PlayerState;

verus! {

/// What the caller has to carry out after a tick.
#[derive(Debug)]
pub struct TickOutcome {
    /// What to report about the cursor.
    pub report: CursorReport,
    /// The steps of the coordinates and the transform that follows them.
    pub motion: Motion,
    /// The clip to start, if the state's clip is not the one last started.
    pub command: Option<PlayLooping>,
}

/// Runs one tick on a sample of the input: the mouse buttons, then the
/// directional keys, then the animation selector, which so sees the state that
/// this tick's input has led to.
///
/// A held key moves the character, so its entity must be attached by then.
pub fn tick(
    player: &mut PlayerState,
    input: InputSnapshot,
    targets: PlaybackTargets,
) -> (outcome: TickOutcome)
    requires
        input.keys.any() ==> old(player).entity_ref.is_some(),
    ensures
        final(player).state == state_after_input(old(player).state, input.keys, input.buttons),
        final(player).previous_state == previous_after_selection(
            final(player).state,
            old(player).previous_state,
            targets,
        ),
        final(player).entity_ref == old(player).entity_ref,
        outcome.report == cursor_report_for(input.buttons, input.cursor_in_window),
        outcome.motion.steps@ == steps_for(input.keys),
        outcome.motion.sink == (if input.keys.any() {
            old(player).entity_ref
        } else {
            None
        }),
        outcome.command == selection(final(player).state, old(player).previous_state, targets),
{
    let report = move_player_by_mouse(player, input.buttons, input.cursor_in_window);
    let motion = move_player(player, input.keys);
    let command = keyboard_animation_control(player, targets);
    TickOutcome { report, motion, command }
}

} // verus!
