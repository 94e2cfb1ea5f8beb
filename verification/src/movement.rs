//! The state resolver: from one tick's input to the character's next state
//! and the steps its coordinates take.

use vstd::prelude::*;
use bevy::ecs::entity::Entity;
use crate::input::{CursorReport, DirectionKeys, MouseButtons, cursor_report_for};
use crate::player::PlayerState;
use crate::state::StateCode;

verus! {

/// Units of distance covered per second along one axis: the numerator.
pub const SPEED_NUMERATOR: u32 = 1;

/// Units of distance covered per second along one axis: the denominator.
pub const SPEED_DENOMINATOR: u32 = 2;

/// The two coordinates of the character on the ground plane.
#[derive(Clone, Copy, Debug, PartialEq, Eq, Structural)]
pub enum Axis {
    I,
    J,
}

/// Whether a step lowers or raises its coordinate.
#[derive(Clone, Copy, Debug, PartialEq, Eq, Structural)]
pub enum Sign {
    Minus,
    Plus,
}

/// One change of one coordinate by the tick's step length, which is the speed
/// times the time elapsed since the last tick.
#[derive(Clone, Copy, Debug, PartialEq, Eq, Structural)]
pub struct Step {
    pub axis: Axis,
    pub sign: Sign,
}

impl Step {
    /// The step's change of coordinate `axis`, in step lengths.
    pub open spec fn delta(self, axis: Axis) -> int {
        if self.axis != axis {
            0
        } else if self.sign == Sign::Plus {
            1
        } else {
            -1
        }
    }
}

/// The step of the Up key.
pub open spec fn up_step() -> Step {
    Step { axis: Axis::I, sign: Sign::Minus }
}

/// The step of the Down key.
pub open spec fn down_step() -> Step {
    Step { axis: Axis::I, sign: Sign::Plus }
}

/// The step of the Right key.
pub open spec fn right_step() -> Step {
    Step { axis: Axis::J, sign: Sign::Minus }
}

/// The step of the Left key.
pub open spec fn left_step() -> Step {
    Step { axis: Axis::J, sign: Sign::Plus }
}

/// The step `step` if `held`, else nothing.
pub open spec fn step_if(held: bool, step: Step) -> Seq<Step> {
    if held {
        seq![step]
    } else {
        Seq::empty()
    }
}

/// The steps of one tick, in the order in which they are applied: one for
/// each held key, Up, Down, Right, Left. Opposite keys each give their step.
pub open spec fn steps_for(keys: DirectionKeys) -> Seq<Step> {
    step_if(keys.up, up_step()) + step_if(keys.down, down_step())
        + step_if(keys.right, right_step()) + step_if(keys.left, left_step())
}

/// The sum of the steps' changes of coordinate `axis`, in step lengths.
pub open spec fn net_delta(steps: Seq<Step>, axis: Axis) -> int
    decreases steps.len(),
{
    if steps.len() == 0 {
        0
    } else {
        net_delta(steps.drop_last(), axis) + steps.last().delta(axis)
    }
}

/// The square of the length of the displacement that `steps` add up to, in
/// step lengths.
pub open spec fn squared_displacement(steps: Seq<Step>) -> int {
    net_delta(steps, Axis::I) * net_delta(steps, Axis::I)
        + net_delta(steps, Axis::J) * net_delta(steps, Axis::J)
}

/// The state after the directional keys were looked at: any held key means
/// moving; with none held the special action lasts and anything else is idle.
pub open spec fn state_after_keys(prior: StateCode, keys: DirectionKeys) -> StateCode {
    if keys.any() {
        StateCode::Moving
    } else if prior == StateCode::Special {
        StateCode::Special
    } else {
        StateCode::Idle
    }
}

/// The state after the mouse buttons were looked at: the right button starts
/// the special action.
pub open spec fn state_after_buttons(prior: StateCode, buttons: MouseButtons) -> StateCode {
    if buttons.right {
        StateCode::Special
    } else {
        prior
    }
}

/// The state after a whole tick's input: buttons first, keys after them.
pub open spec fn state_after_input(
    prior: StateCode,
    keys: DirectionKeys,
    buttons: MouseButtons,
) -> StateCode {
    state_after_keys(state_after_buttons(prior, buttons), keys)
}

/// What the directional keys of one tick do to the character's place.
#[derive(Debug)]
pub struct Motion {
    /// The steps to add to the coordinates, in this order.
    pub steps: Vec<Step>,
    /// The entity whose transform takes the new coordinates; `None` when no
    /// key was held, and the transform is then left alone.
    pub sink: Option<Entity>,
}

/// Looks at the mouse buttons: the right one starts the special action, the
/// left one asks for a report on the cursor. Nothing else of `player` changes.
pub fn move_player_by_mouse(
    player: &mut PlayerState,
    buttons: MouseButtons,
    cursor_in_window: bool,
) -> (report: CursorReport)
    ensures
        report == cursor_report_for(buttons, cursor_in_window),
        final(player).state == state_after_buttons(old(player).state, buttons),
        final(player).previous_state == old(player).previous_state,
        final(player).entity_ref == old(player).entity_ref,
{
    let report = if !buttons.left {
        CursorReport::Silent
    } else if cursor_in_window {
        CursorReport::Position
    } else {
        CursorReport::OutsideWindow
    };
    if buttons.right {
        player.state = StateCode::Special;
    }
    report
}

/// Looks at the directional keys: sets the state and says which steps the
/// coordinates take and whose transform follows them.
///
/// A held key moves the character, so its entity must be attached by then.
pub fn move_player(player: &mut PlayerState, keys: DirectionKeys) -> (motion: Motion)
    requires
        keys.any() ==> old(player).entity_ref.is_some(),
    ensures
        final(player).state == state_after_keys(old(player).state, keys),
        final(player).previous_state == old(player).previous_state,
        final(player).entity_ref == old(player).entity_ref,
        motion.steps@ == steps_for(keys),
        motion.sink == (if keys.any() { old(player).entity_ref } else { None }),
{
    let mut steps: Vec<Step> = Vec::new();
    let mut moved = false;
    if keys.up {
        steps.push(Step { axis: Axis::I, sign: Sign::Minus });
        moved = true;
    }
    if keys.down {
        steps.push(Step { axis: Axis::I, sign: Sign::Plus });
        moved = true;
    }
    if keys.right {
        steps.push(Step { axis: Axis::J, sign: Sign::Minus });
        moved = true;
    }
    if keys.left {
        steps.push(Step { axis: Axis::J, sign: Sign::Plus });
        moved = true;
    }
    assert(steps@ =~= steps_for(keys));
    if moved {
        player.state = StateCode::Moving;
        Motion { steps, sink: player.entity_ref }
    } else {
        if player.state != StateCode::Special {
            player.state = StateCode::Idle;
        }
        Motion { steps, sink: None }
    }
}

/// One for a held key, nothing for a key that is up.
pub open spec fn key_weight(held: bool) -> int {
    if held {
        1
    } else {
        0
    }
}

/// Whether exactly one directional key is held.
pub open spec fn single_key(keys: DirectionKeys) -> bool {
    key_weight(keys.up) + key_weight(keys.down) + key_weight(keys.right) + key_weight(keys.left)
        == 1
}

/// Whether exactly two directional keys are held, one of each axis.
pub open spec fn diagonal_keys(keys: DirectionKeys) -> bool {
    keys.up != keys.down && keys.right != keys.left
}

/// The net change of `axis` is the sum of the net changes of two runs of
/// steps applied one after the other.
pub proof fn lemma_net_delta_concat(first: Seq<Step>, second: Seq<Step>, axis: Axis)
    ensures
        net_delta(first + second, axis) == net_delta(first, axis) + net_delta(second, axis),
    decreases second.len(),
{
    if second.len() == 0 {
        assert(first + second =~= first);
    } else {
        lemma_net_delta_concat(first, second.drop_last(), axis);
        assert((first + second).drop_last() =~= first + second.drop_last());
        assert((first + second).last() == second.last());
    }
}

/// The net change of `axis` by the step of one key.
proof fn lemma_net_delta_step_if(held: bool, step: Step, axis: Axis)
    ensures
        net_delta(step_if(held, step), axis) == (if held {
            step.delta(axis)
        } else {
            0
        }),
{
    if held {
        let one = step_if(held, step);
        assert(one.drop_last() =~= Seq::<Step>::empty());
        assert(net_delta(one.drop_last(), axis) == 0);
        assert(one.last() == step);
    }
}

/// The steps of a tick add up, on each axis, to the difference of the two
/// keys of that axis: Down against Up, Left against Right. Opposite keys held
/// together come to nothing.
pub proof fn law_net_delta_of_keys(keys: DirectionKeys)
    ensures
        net_delta(steps_for(keys), Axis::I) == key_weight(keys.down) - key_weight(keys.up),
        net_delta(steps_for(keys), Axis::J) == key_weight(keys.left) - key_weight(keys.right),
{
    let a = step_if(keys.up, up_step());
    let b = step_if(keys.down, down_step());
    let c = step_if(keys.right, right_step());
    let d = step_if(keys.left, left_step());
    lemma_net_delta_concat(a, b, Axis::I);
    lemma_net_delta_concat(a + b, c, Axis::I);
    lemma_net_delta_concat(a + b + c, d, Axis::I);
    lemma_net_delta_concat(a, b, Axis::J);
    lemma_net_delta_concat(a + b, c, Axis::J);
    lemma_net_delta_concat(a + b + c, d, Axis::J);
    lemma_net_delta_step_if(keys.up, up_step(), Axis::I);
    lemma_net_delta_step_if(keys.down, down_step(), Axis::I);
    lemma_net_delta_step_if(keys.right, right_step(), Axis::I);
    lemma_net_delta_step_if(keys.left, left_step(), Axis::I);
    lemma_net_delta_step_if(keys.up, up_step(), Axis::J);
    lemma_net_delta_step_if(keys.down, down_step(), Axis::J);
    lemma_net_delta_step_if(keys.right, right_step(), Axis::J);
    lemma_net_delta_step_if(keys.left, left_step(), Axis::J);
}

/// The square of a net change of at most one step length.
proof fn lemma_unit_square(x: int)
    requires
        -1 <= x <= 1,
    ensures
        x * x == (if x == 0 {
            0int
        } else {
            1int
        }),
{
    assert(x == 0 ==> x * x == 0) by (nonlinear_arith);
    assert(x == 1 ==> x * x == 1) by (nonlinear_arith);
    assert(x == -1 ==> x * x == 1) by (nonlinear_arith);
}

/// Diagonal steps are not shortened: two keys of different axes move the
/// character by a displacement whose squared length is twice that of one key
/// alone, so its length is the square root of two times as long.
pub proof fn law_diagonal_displacement(diagonal: DirectionKeys, single: DirectionKeys)
    requires
        diagonal_keys(diagonal),
        single_key(single),
    ensures
        squared_displacement(steps_for(single)) == 1,
        squared_displacement(steps_for(diagonal)) == 2,
        squared_displacement(steps_for(diagonal)) == 2 * squared_displacement(steps_for(single)),
{
    law_net_delta_of_keys(diagonal);
    law_net_delta_of_keys(single);
    lemma_unit_square(net_delta(steps_for(diagonal), Axis::I));
    lemma_unit_square(net_delta(steps_for(diagonal), Axis::J));
    lemma_unit_square(net_delta(steps_for(single), Axis::I));
    lemma_unit_square(net_delta(steps_for(single), Axis::J));
}

/// A held directional key makes the character move, whatever it did before
/// and whatever the mouse buttons say.
pub proof fn law_movement_overrides(prior: StateCode, keys: DirectionKeys, buttons: MouseButtons)
    requires
        keys.any(),
    ensures
        state_after_keys(prior, keys) == StateCode::Moving,
        state_after_input(prior, keys, buttons) == StateCode::Moving,
{
}

/// The special action lasts as long as no directional key is held.
pub proof fn law_special_is_sticky(keys: DirectionKeys, buttons: MouseButtons)
    requires
        !keys.any(),
    ensures
        state_after_keys(StateCode::Special, keys) == StateCode::Special,
        state_after_input(StateCode::Special, keys, buttons) == StateCode::Special,
{
}

/// With no directional key held, a character that is not in the special
/// action, and does not start it in this tick by the right button, is idle.
pub proof fn law_idle_without_keys(prior: StateCode, keys: DirectionKeys, buttons: MouseButtons)
    requires
        !keys.any(),
        prior != StateCode::Special,
        !buttons.right,
    ensures
        state_after_keys(prior, keys) == StateCode::Idle,
        state_after_input(prior, keys, buttons) == StateCode::Idle,
{
}

/// The right button held with no directional key starts the special action
/// from any state.
pub proof fn law_right_button_starts_special(
    prior: StateCode,
    keys: DirectionKeys,
    buttons: MouseButtons,
)
    requires
        !keys.any(),
        buttons.right,
    ensures
        state_after_input(prior, keys, buttons) == StateCode::Special,
{
}

} // verus!
