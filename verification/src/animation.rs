//! The animation selector: which clip to start, and when.

use vstd::prelude::*;
use crate::input::PlaybackTargets;
use crate::player::PlayerState;
use crate::state::StateCode;

verus! {

/// The command to start the clip of a state and keep repeating it.
#[derive(Clone, Copy, Debug, PartialEq, Eq, Structural)]
pub struct PlayLooping {
    /// The state whose catalog entry is played.
    pub clip_of: StateCode,
}

/// Whether the selector issues a command: the state differs from the one whose
/// clip was started last, and exactly one target can take the command.
pub open spec fn switch_due(state: StateCode, previous: StateCode, targets: PlaybackTargets) -> bool {
    state != previous && targets.is_ready()
}

/// The state whose clip was started last, after the selector ran.
pub open spec fn previous_after_selection(
    state: StateCode,
    previous: StateCode,
    targets: PlaybackTargets,
) -> StateCode {
    if switch_due(state, previous, targets) {
        state
    } else {
        previous
    }
}

/// The command that the selector issues, if any.
pub open spec fn selection(
    state: StateCode,
    previous: StateCode,
    targets: PlaybackTargets,
) -> Option<PlayLooping> {
    if switch_due(state, previous, targets) {
        Some(PlayLooping { clip_of: state })
    } else {
        None
    }
}

/// The animation selector. Where the state has changed since a clip was last
/// started and there is exactly one playback target, it returns the command to
/// play the new state's clip and records the state as started. Otherwise it
/// returns `None` and records nothing, so a change that found no single target
/// is taken up again in the next tick.
pub fn keyboard_animation_control(
    player: &mut PlayerState,
    targets: PlaybackTargets,
) -> (command: Option<PlayLooping>)
    ensures
        command == selection(old(player).state, old(player).previous_state, targets),
        final(player).previous_state == previous_after_selection(
            old(player).state,
            old(player).previous_state,
            targets,
        ),
        final(player).state == old(player).state,
        final(player).entity_ref == old(player).entity_ref,
{
    if player.previous_state != player.state {
        if targets.is_ready() {
            player.previous_state = player.state;
            return Some(PlayLooping { clip_of: player.state });
        }
    }
    None
}

/// Whether the start-up command is issued: it has not been issued before and
/// exactly one target can take it.
pub open spec fn startup_due(done: bool, targets: PlaybackTargets) -> bool {
    !done && targets.is_ready()
}

/// The one-shot start of the first clip. As long as `done` is false it waits
/// for a tick with exactly one playback target, then returns the command to
/// play the clip of the character's state and sets `done`. Once `done` is set
/// it returns `None` for good.
pub fn setup_scene_once_loaded(
    done: &mut bool,
    player: &PlayerState,
    targets: PlaybackTargets,
) -> (command: Option<PlayLooping>)
    ensures
        command == (if startup_due(*old(done), targets) {
            Some(PlayLooping { clip_of: player.state })
        } else {
            None
        }),
        *final(done) == (*old(done) || targets.is_ready()),
{
    if !*done {
        if targets.is_ready() {
            *done = true;
            return Some(PlayLooping { clip_of: player.state });
        }
    }
    None
}

/// The state whose clip was started last, after the selector ran once per
/// tick on the states of `states`, each time with exactly one playback target.
pub open spec fn started_after(previous: StateCode, states: Seq<StateCode>) -> StateCode
    decreases states.len(),
{
    if states.len() == 0 {
        previous
    } else {
        previous_after_selection(
            states.last(),
            started_after(previous, states.drop_last()),
            PlaybackTargets::Single,
        )
    }
}

/// The number of commands that the selector issues when it runs once per tick
/// on the states of `states`, each time with exactly one playback target.
pub open spec fn switches_over(previous: StateCode, states: Seq<StateCode>) -> nat
    decreases states.len(),
{
    if states.len() == 0 {
        0
    } else {
        let earlier = switches_over(previous, states.drop_last());
        if switch_due(
            states.last(),
            started_after(previous, states.drop_last()),
            PlaybackTargets::Single,
        ) {
            earlier + 1
        } else {
            earlier
        }
    }
}

/// The number of ticks of `states` whose state differs from that of the tick
/// before; the first tick is held against `first`.
pub open spec fn state_changes(first: StateCode, states: Seq<StateCode>) -> nat
    decreases states.len(),
{
    if states.len() == 0 {
        0
    } else {
        let earlier = state_changes(first, states.drop_last());
        let before = if states.len() == 1 {
            first
        } else {
            states[states.len() - 2]
        };
        if states.last() != before {
            earlier + 1
        } else {
            earlier
        }
    }
}

/// With a playback target in every tick, the selector issues one command for
/// each run of ticks with the same state, at the run's first tick: as many
/// commands as the state changes, and after every tick the state is recorded
/// as started.
pub proof fn law_one_switch_per_run(previous: StateCode, states: Seq<StateCode>)
    ensures
        switches_over(previous, states) == state_changes(previous, states),
        started_after(previous, states) == (if states.len() == 0 {
            previous
        } else {
            states.last()
        }),
    decreases states.len(),
{
    if states.len() > 0 {
        let front = states.drop_last();
        law_one_switch_per_run(previous, front);
        if front.len() > 0 {
            assert(front.last() == states[states.len() - 2]);
        }
    }
}

/// With the state unchanged since a clip was last started, the selector does
/// nothing, whatever the targets.
pub proof fn law_no_switch_without_change(state: StateCode, targets: PlaybackTargets)
    ensures
        selection(state, state, targets).is_none(),
        previous_after_selection(state, state, targets) == state,
{
}

/// Whether some tick of `readings` has exactly one playback target.
pub open spec fn any_ready(readings: Seq<PlaybackTargets>) -> bool {
    exists|k: int| 0 <= k < readings.len() && (#[trigger] readings[k]).is_ready()
}

/// Whether tick `k` is the first of `readings` with exactly one playback target.
pub open spec fn first_ready(readings: Seq<PlaybackTargets>, k: int) -> bool {
    &&& 0 <= k < readings.len()
    &&& readings[k].is_ready()
    &&& forall|j: int| 0 <= j < k ==> !(#[trigger] readings[j]).is_ready()
}

/// The flag of the one-shot start after it ran once per tick on `readings`.
pub open spec fn done_after(done: bool, readings: Seq<PlaybackTargets>) -> bool
    decreases readings.len(),
{
    if readings.len() == 0 {
        done
    } else {
        done_after(done, readings.drop_last()) || readings.last().is_ready()
    }
}

/// The number of commands that the one-shot start issues when it runs once per
/// tick on `readings`.
pub open spec fn startup_commands_over(done: bool, readings: Seq<PlaybackTargets>) -> nat
    decreases readings.len(),
{
    if readings.len() == 0 {
        0
    } else {
        let earlier = startup_commands_over(done, readings.drop_last());
        if startup_due(done_after(done, readings.drop_last()), readings.last()) {
            earlier + 1
        } else {
            earlier
        }
    }
}

/// The flag of the one-shot start is set after a run of ticks exactly if it
/// was set before or one of the ticks had a single playback target.
pub proof fn law_done_once_ready(done: bool, readings: Seq<PlaybackTargets>)
    ensures
        done_after(done, readings) == (done || any_ready(readings)),
    decreases readings.len(),
{
    if readings.len() > 0 {
        let front = readings.drop_last();
        law_done_once_ready(done, front);
        if any_ready(front) {
            let k = choose|k: int| 0 <= k < front.len() && (#[trigger] front[k]).is_ready();
            assert(readings[k].is_ready());
        }
        if readings.last().is_ready() {
            assert(readings[readings.len() - 1].is_ready());
        }
        if any_ready(readings) {
            let k = choose|k: int| 0 <= k < readings.len() && (#[trigger] readings[k]).is_ready();
            if k < front.len() {
                assert(front[k].is_ready());
            }
        }
    }
}

/// Over any run of ticks the one-shot start issues its command once if some
/// tick has a single playback target, and never otherwise; once its flag is
/// set it issues none, however the targets come and go.
pub proof fn law_startup_fires_once(readings: Seq<PlaybackTargets>)
    ensures
        startup_commands_over(false, readings) == (if any_ready(readings) {
            1nat
        } else {
            0nat
        }),
        startup_commands_over(true, readings) == 0,
    decreases readings.len(),
{
    if readings.len() > 0 {
        let front = readings.drop_last();
        law_startup_fires_once(front);
        law_done_once_ready(false, front);
        law_done_once_ready(false, readings);
        law_done_once_ready(true, front);
    }
}

/// The one-shot start issues its command in tick `k` exactly if that is the
/// first tick with a single playback target.
pub proof fn law_startup_fires_at_first_ready(readings: Seq<PlaybackTargets>, k: int)
    requires
        0 <= k < readings.len(),
    ensures
        startup_due(done_after(false, readings.take(k)), readings[k]) == first_ready(readings, k),
{
    let front = readings.take(k);
    law_done_once_ready(false, front);
    if any_ready(front) {
        let j = choose|j: int| 0 <= j < front.len() && (#[trigger] front[j]).is_ready();
        assert(readings[j].is_ready());
    }
    if !any_ready(front) {
        assert forall|j: int| 0 <= j < k implies !(#[trigger] readings[j]).is_ready() by {
            assert(front[j] == readings[j]);
        }
    }
}

} // verus!
