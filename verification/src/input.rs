//! The input translator: state, transition rules, and the verified
//! operations that the game loop calls.

use vstd::prelude::*;

verus! {

/// Gamepad button number that fires the weapon (the A button on a standard
/// XInput mapping).
pub const FIRE_BUTTON: u8 = 10;

/// Axis number of the steering stick (left stick, XInput): `-1000` is full
/// left, `1000` full right.
pub const STEERING_AXIS: u8 = 0;

/// Axis number of the boost trigger (right trigger, XInput): `-1000` is
/// released, `1000` fully pressed.
pub const TRIGGER_AXIS: u8 = 5;

/// Lowest position an axis can report, in thousandths of full deflection.
pub const AXIS_MIN: i32 = -1000;

/// Highest position an axis can report, in thousandths of full deflection.
pub const AXIS_MAX: i32 = 1000;

/// Steering positions at or below this are a turn to the left.
pub const STEER_LEFT_MAX: i32 = -200;

/// Steering positions at or above this are a turn to the right.
pub const STEER_RIGHT_MIN: i32 = 200;

/// Lower edge of the steering dead zone.
pub const DEAD_ZONE_MIN: i32 = -199;

/// Upper edge of the steering dead zone.
pub const DEAD_ZONE_MAX: i32 = 199;

/// Trigger positions at or above this engage boost. This range overlaps the
/// disengage range below; the engage check runs first, so it wins on the
/// overlap.
pub const BOOST_ON_MIN: i32 = -800;

/// Trigger positions at or below this (and not caught by the engage check)
/// release boost.
pub const BOOST_OFF_MAX: i32 = -799;

/// Half-period of the auto-pilot's left/right alternation, in microseconds.
pub const DEFAULT_ROTATE_PERIOD: u64 = 250_000;

/// Identifier for a keyboard key, restricted to what the translator reads:
/// the four bound keys, the auto-pilot toggle, and everything else.
#[derive(Clone, Copy, PartialEq, Eq, Structural, Debug)]
pub enum Key {
    /// The auto-pilot toggle key (left control).
    LCtrl,
    /// Bound to rotate-left.
    Left,
    /// Bound to rotate-right.
    Right,
    /// Bound to boost.
    Up,
    /// Bound to shoot.
    Space,
    /// Any key without a binding.
    Other,
}

/// Which of the two action sets the translator currently exposes.
#[derive(Clone, Copy, PartialEq, Eq, Structural, Debug)]
pub enum Mode {
    /// Actions come from device input.
    Manual,
    /// Actions are synthesized from elapsed time.
    AutoPilot,
}

/// Active actions (toggled by user input)
#[derive(Clone, Copy, PartialEq, Eq, Structural, Debug)]
pub struct Actions {
    pub rotate_left: bool,
    pub rotate_right: bool,
    pub boost: bool,
    pub shoot: bool,
}

/// The auto-pilot's state: an elapsed-time accumulator, the fixed half-period
/// of its left/right alternation, and the action set it synthesizes.
#[derive(Clone, Copy, PartialEq, Eq, Structural, Debug)]
pub struct AutoAction {
    /// Accumulated elapsed time, in microseconds.
    pub time: u64,
    /// Half-period of the left/right alternation, in microseconds.
    pub rotate_period: u64,
    /// The synthesized action set: `shoot` stays true, `boost` stays false,
    /// the rotate flags follow the oscillation phase.
    pub actions: Actions,
}

/// The input translator. It owns a manual action set mutated by device
/// events, an auto-pilot state driven by elapsed time, and the mode that
/// selects which of the two `actions` exposes.
#[derive(Clone, Copy, PartialEq, Eq, Structural, Debug)]
pub struct InputController {
    /// The manual action set.
    pub actions: Actions,
    /// Which action set is exposed.
    pub mode: Mode,
    /// The auto-pilot's state.
    pub auto_actions: AutoAction,
}

/// The manual action set a translator starts with: every flag clear.
pub open spec fn initial_actions() -> Actions {
    Actions { rotate_left: false, rotate_right: false, boost: false, shoot: false }
}

/// The state a freshly created translator is in: manual mode, every manual
/// flag clear, the auto-pilot clock at zero and its action set shoot-only.
pub open spec fn initial_controller() -> InputController {
    InputController {
        actions: initial_actions(),
        mode: Mode::Manual,
        auto_actions: AutoAction {
            time: 0,
            rotate_period: DEFAULT_ROTATE_PERIOD,
            actions: Actions { rotate_left: false, rotate_right: false, boost: false, shoot: true },
        },
    }
}

/// The action set the translator exposes: the auto-pilot's in auto-pilot
/// mode, the manual one otherwise.
pub open spec fn current_actions(c: InputController) -> Actions {
    if c.mode is AutoPilot {
        c.auto_actions.actions
    } else {
        c.actions
    }
}

/// The auto-pilot clock after a tick of `dt`: the sum, capped at `u64::MAX`.
pub open spec fn saturated_time(time: u64, dt: u64) -> u64 {
    if time + dt <= u64::MAX {
        (time + dt) as u64
    } else {
        u64::MAX
    }
}

/// How many whole half-periods have elapsed.
pub open spec fn phase(time: u64, period: u64) -> int
    recommends
        period > 0,
{
    time as int / period as int
}

/// The auto-pilot rotates left during odd phases and right during even ones.
pub open spec fn auto_rotates_left(time: u64, period: u64) -> bool
    recommends
        period > 0,
{
    phase(time, period) % 2 == 1
}

/// Transition for a tick: in auto-pilot mode, advance the clock by `dt` and
/// recompute the rotate flags from the new phase; in manual mode, change
/// nothing.
pub open spec fn step_tick(c: InputController, dt: u64) -> InputController {
    if c.mode is AutoPilot {
        let t = saturated_time(c.auto_actions.time, dt);
        InputController {
            auto_actions: AutoAction {
                time: t,
                actions: Actions {
                    rotate_left: auto_rotates_left(t, c.auto_actions.rotate_period),
                    rotate_right: !auto_rotates_left(t, c.auto_actions.rotate_period),
                    ..c.auto_actions.actions
                },
                ..c.auto_actions
            },
            ..c
        }
    } else {
        c
    }
}

/// The manual action set after a key event, once the mode has been found to
/// be manual: a bound key writes `pressed` into its flag, any other key
/// changes nothing.
pub open spec fn manual_after_key(a: Actions, key: Key, pressed: bool) -> Actions {
    match key {
        Key::Left => Actions { rotate_left: pressed, ..a },
        Key::Right => Actions { rotate_right: pressed, ..a },
        Key::Up => Actions { boost: pressed, ..a },
        Key::Space => Actions { shoot: pressed, ..a },
        _ => a,
    }
}

/// Transition for a key event. The mode is recomputed on *every* key event,
/// press or release, as "is this the toggle key": a known quirk kept on
/// purpose, so releasing any other key leaves auto-pilot. When the event is
/// for the toggle key nothing else changes; otherwise the manual set is
/// updated as `manual_after_key` says.
pub open spec fn step_key(c: InputController, key: Key, pressed: bool) -> InputController {
    if key is LCtrl {
        InputController { mode: Mode::AutoPilot, ..c }
    } else {
        InputController {
            mode: Mode::Manual,
            actions: manual_after_key(c.actions, key, pressed),
            ..c
        }
    }
}

/// Transition for a button event: the fire button writes `pressed` into the
/// manual `shoot` flag, every other button changes nothing. The mode is not
/// touched.
pub open spec fn step_button(c: InputController, button: u8, pressed: bool) -> InputController {
    if button == FIRE_BUTTON {
        InputController { actions: Actions { shoot: pressed, ..c.actions }, ..c }
    } else {
        c
    }
}

/// The manual action set after a steering event: an ordered chain of range
/// checks, first match wins. In-range positions set exactly one rotate flag
/// or clear both (the dead zone); out-of-range positions change nothing.
pub open spec fn steer_actions(a: Actions, position: i32) -> Actions {
    if AXIS_MIN <= position && position <= STEER_LEFT_MAX {
        Actions { rotate_left: true, rotate_right: false, ..a }
    } else if STEER_RIGHT_MIN <= position && position <= AXIS_MAX {
        Actions { rotate_left: false, rotate_right: true, ..a }
    } else if DEAD_ZONE_MIN <= position && position <= DEAD_ZONE_MAX {
        Actions { rotate_left: false, rotate_right: false, ..a }
    } else {
        a
    }
}

/// The manual action set after a trigger event: an ordered chain of range
/// checks, first match wins. The engage range runs first, so on the overlap
/// at its lower edge boost is engaged; out-of-range positions change nothing.
pub open spec fn trigger_actions(a: Actions, position: i32) -> Actions {
    if BOOST_ON_MIN <= position && position <= AXIS_MAX {
        Actions { boost: true, ..a }
    } else if AXIS_MIN <= position && position <= BOOST_OFF_MAX {
        Actions { boost: false, ..a }
    } else {
        a
    }
}

/// Transition for an axis event: the steering axis updates the rotate flags,
/// the trigger axis the boost flag, any other axis changes nothing. The mode
/// is not touched.
pub open spec fn step_axis(c: InputController, axis: u8, position: i32) -> InputController {
    let c1 = if axis == STEERING_AXIS {
        InputController { actions: steer_actions(c.actions, position), ..c }
    } else {
        c
    };
    if axis == TRIGGER_AXIS {
        InputController { actions: trigger_actions(c1.actions, position), ..c1 }
    } else {
        c1
    }
}

impl InputController {
    /// Well-formedness: the oscillation half-period is positive (so phases
    /// are defined), and the auto-pilot set always shoots, never boosts, and
    /// never rotates both ways at once.
    pub open spec fn wf(self) -> bool {
        &&& self.auto_actions.rotate_period > 0
        &&& self.auto_actions.actions.shoot
        &&& !self.auto_actions.actions.boost
        &&& !(self.auto_actions.actions.rotate_left && self.auto_actions.actions.rotate_right)
    }
}

impl Default for Actions {
    /// An action set with every flag clear.
    fn default() -> (r: Actions)
        ensures
            r == initial_actions(),
    {
        Actions { rotate_left: false, rotate_right: false, boost: false, shoot: false }
    }
}

impl Default for AutoAction {
    /// A fresh auto-pilot state: clock at zero, the default half-period, and
    /// a shoot-only action set.
    fn default() -> (r: AutoAction)
        ensures
            r == initial_controller().auto_actions,
    {
        AutoAction {
            time: 0,
            rotate_period: DEFAULT_ROTATE_PERIOD,
            actions: Actions { rotate_left: false, rotate_right: false, boost: false, shoot: true },
        }
    }
}

impl Default for InputController {
    /// A fresh translator, equal to what `new` returns.
    fn default() -> (r: InputController)
        ensures
            r == initial_controller(),
            r.wf(),
    {
        InputController {
            actions: Actions::default(),
            mode: Mode::Manual,
            auto_actions: AutoAction::default(),
        }
    }
}

impl InputController {
    /// Create a new `InputController`
    pub fn new() -> (r: InputController)
        ensures
            r == initial_controller(),
            r.wf(),
    {
        InputController::default()
    }

    /// Returns a shared reference to the underlying actions: the auto-pilot
    /// set in auto-pilot mode, the manual set otherwise.
    pub fn actions(&self) -> (r: &Actions)
        ensures
            *r == current_actions(*self),
    {
        match self.mode {
            Mode::AutoPilot => &self.auto_actions.actions,
            Mode::Manual => &self.actions,
        }
    }

    /// Advance the auto-pilot by `dt` microseconds and recompute its rotate
    /// flags from the new phase; a no-op in manual mode. Tolerates any `dt`:
    /// the clock saturates at `u64::MAX` instead of overflowing.
    pub fn update(&mut self, dt: u64)
        requires
            old(self).wf(),
        ensures
            *final(self) == step_tick(*old(self), dt),
            final(self).wf(),
    {
        match self.mode {
            Mode::AutoPilot => {
                let t: u64 = if dt <= u64::MAX - self.auto_actions.time {
                    self.auto_actions.time + dt
                } else {
                    u64::MAX
                };
                self.auto_actions.time = t;
                let ph: u64 = t / self.auto_actions.rotate_period;
                if ph % 2 == 1 {
                    self.auto_actions.actions.rotate_left = true;
                    self.auto_actions.actions.rotate_right = false;
                } else {
                    self.auto_actions.actions.rotate_left = false;
                    self.auto_actions.actions.rotate_right = true;
                }
            }
            Mode::Manual => {}
        }
    }

    /// Processes a key press
    pub fn key_press(&mut self, key: Key)
        requires
            old(self).wf(),
        ensures
            *final(self) == step_key(*old(self), key, true),
            final(self).wf(),
    {
        self.handle_key(key, true);
    }

    /// Processes a key release
    pub fn key_release(&mut self, key: Key)
        requires
            old(self).wf(),
        ensures
            *final(self) == step_key(*old(self), key, false),
            final(self).wf(),
    {
        self.handle_key(key, false);
    }

    /// Handles a key press or release. The mode is recomputed from this very
    /// event, whatever the key and whether it went down or up.
    fn handle_key(&mut self, key: Key, pressed: bool)
        requires
            old(self).wf(),
        ensures
            *final(self) == step_key(*old(self), key, pressed),
            final(self).wf(),
    {
        self.mode = if key == Key::LCtrl {
            Mode::AutoPilot
        } else {
            Mode::Manual
        };
        match self.mode {
            Mode::AutoPilot => {
                return;
            }
            Mode::Manual => {}
        }
        match key {
            Key::Left => self.actions.rotate_left = pressed,
            Key::Right => self.actions.rotate_right = pressed,
            Key::Up => self.actions.boost = pressed,
            Key::Space => self.actions.shoot = pressed,
            _ => {}
        }
    }

    /// Processes a button press
    pub fn button_press(&mut self, button: u8)
        requires
            old(self).wf(),
        ensures
            *final(self) == step_button(*old(self), button, true),
            final(self).wf(),
    {
        self.handle_button(button, true);
    }

    /// Processes a button release
    pub fn button_release(&mut self, button: u8)
        requires
            old(self).wf(),
        ensures
            *final(self) == step_button(*old(self), button, false),
            final(self).wf(),
    {
        self.handle_button(button, false);
    }

    /// Handles a button press or release: only the fire button is bound.
    fn handle_button(&mut self, button: u8, pressed: bool)
        requires
            old(self).wf(),
        ensures
            *final(self) == step_button(*old(self), button, pressed),
            final(self).wf(),
    {
        if button == FIRE_BUTTON {
            self.actions.shoot = pressed;
        }
    }

    /// Handles a controller axis input: `position` is in thousandths of full
    /// deflection. Unrecognized axes and out-of-range positions are ignored.
    pub fn handle_axis(&mut self, axis: u8, position: i32)
        requires
            old(self).wf(),
        ensures
            *final(self) == step_axis(*old(self), axis, position),
            final(self).wf(),
    {
        if axis == STEERING_AXIS {
            if AXIS_MIN <= position && position <= STEER_LEFT_MAX {
                self.actions.rotate_left = true;
                self.actions.rotate_right = false;
            } else if STEER_RIGHT_MIN <= position && position <= AXIS_MAX {
                self.actions.rotate_left = false;
                self.actions.rotate_right = true;
            } else if DEAD_ZONE_MIN <= position && position <= DEAD_ZONE_MAX {
                self.actions.rotate_left = false;
                self.actions.rotate_right = false;
            }
        }
        if axis == TRIGGER_AXIS {
            if BOOST_ON_MIN <= position && position <= AXIS_MAX {
                self.actions.boost = true;
            } else if AXIS_MIN <= position && position <= BOOST_OFF_MAX {
                self.actions.boost = false;
            }
        }
    }
}

} // verus!
