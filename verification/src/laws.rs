//! General properties of the translator, stated over the transition
//! functions of `input` and proved once for every state.

use vstd::prelude::*;

verus! {

use crate::input::{
    Actions, InputController, Key, current_actions, manual_after_key, step_axis,
    step_button, step_key, step_tick, AXIS_MAX, AXIS_MIN, STEERING_AXIS,
};

/// Toggle semantics: a key event for the toggle key puts the translator in
/// auto-pilot, and any following key event for a different key puts it back
/// in manual mode — whether either key went down or up. (The mode is
/// recomputed on every key event, a known quirk kept on purpose.)
pub proof fn lemma_toggle_then_other_key(c: InputController, p1: bool, key: Key, p2: bool)
    requires
        key !is LCtrl,
    ensures
        step_key(c, Key::LCtrl, p1).mode is AutoPilot,
        step_key(step_key(c, Key::LCtrl, p1), key, p2).mode is Manual,
{
}

/// Manual key mapping: each bound key writes `pressed` into exactly its own
/// flag and leaves the rest of the manual set alone; an unbound key leaves
/// the whole manual set unchanged.
pub proof fn lemma_manual_key_mapping(c: InputController, pressed: bool)
    ensures
        step_key(c, Key::Left, pressed).actions == (Actions {
            rotate_left: pressed,
            ..c.actions
        }),
        step_key(c, Key::Right, pressed).actions == (Actions {
            rotate_right: pressed,
            ..c.actions
        }),
        step_key(c, Key::Up, pressed).actions == (Actions { boost: pressed, ..c.actions }),
        step_key(c, Key::Space, pressed).actions == (Actions { shoot: pressed, ..c.actions }),
        step_key(c, Key::Other, pressed).actions == c.actions,
{
}

/// Mutual exclusivity of rotation from axis input: after a steering event
/// with any position the stick can report, the manual set never has both
/// rotate flags set.
pub proof fn lemma_steering_mutually_exclusive(c: InputController, position: i32)
    requires
        AXIS_MIN <= position <= AXIS_MAX,
    ensures
        !(step_axis(c, STEERING_AXIS, position).actions.rotate_left && step_axis(
            c,
            STEERING_AXIS,
            position,
        ).actions.rotate_right),
{
}

/// The auto-pilot always shoots and never boosts: in auto-pilot mode the
/// exposed action set has `shoot` set and `boost` clear, whatever the
/// elapsed time and however many ticks have run.
pub proof fn lemma_autopilot_always_shoots(c: InputController)
    requires
        c.wf(),
        c.mode is AutoPilot,
    ensures
        current_actions(c).shoot,
        !current_actions(c).boost,
{
}

/// Idempotence of a zero-length tick: a tick of zero leaves the auto-pilot
/// clock where it was, and once one such tick has been applied, any number
/// of further zero-length ticks changes nothing at all.
pub proof fn lemma_tick_zero_idempotent(c: InputController)
    ensures
        step_tick(c, 0).auto_actions.time == c.auto_actions.time,
        step_tick(step_tick(c, 0), 0) == step_tick(c, 0),
{
}

/// Mode isolation: while in auto-pilot, button events, axis events, and key
/// events for the toggle key itself leave the exposed action set untouched.
/// (A key event for any other key is the one exception: it switches the
/// translator back to manual mode, so the exposed set becomes the manual
/// one.)
pub proof fn lemma_mode_isolation(
    c: InputController,
    button: u8,
    bp: bool,
    axis: u8,
    position: i32,
    kp: bool,
)
    requires
        c.mode is AutoPilot,
    ensures
        current_actions(step_button(c, button, bp)) == current_actions(c),
        current_actions(step_axis(c, axis, position)) == current_actions(c),
        current_actions(step_key(c, Key::LCtrl, kp)) == current_actions(c),
{
}

/// A key event decides the mode by the key alone: the state after the event
/// is the same whether the key went down or up, except that a bound,
/// non-toggle key writes the direction into its flag.
pub proof fn lemma_mode_from_key_alone(c: InputController, key: Key, p1: bool, p2: bool)
    ensures
        step_key(c, key, p1).mode == step_key(c, key, p2).mode,
        step_key(c, key, p1).mode is AutoPilot <==> key is LCtrl,
{
}

/// A key event never touches the auto-pilot state, and its effect on the
/// manual set is exactly what `manual_after_key` says — nothing at all when
/// the event is for the toggle key.
pub proof fn lemma_key_leaves_auto_state(c: InputController, key: Key, pressed: bool)
    ensures
        step_key(c, key, pressed).auto_actions == c.auto_actions,
        step_key(c, key, pressed).actions == (if key is LCtrl {
            c.actions
        } else {
            manual_after_key(c.actions, key, pressed)
        }),
{
}

} // verus!
