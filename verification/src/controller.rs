//! The movement controller: key state, orientation and movement direction,
//! updated by one synchronous dispatch per input event.

use vstd::prelude::*;
use crate::angle::PITCH_LIMIT_UNITS;
use crate::angle::YAW_TURN_UNITS;
use crate::angle::clamp_pitch;
use crate::angle::clamp_pitch_units;
use crate::angle::wrap_yaw;
use crate::angle::wrap_yaw_units;
use crate::keys::Key;
use crate::keys::KeySet;

verus! {

/// The two-valued speed multiplier: `Normal` stands for the factor `1.0`,
/// `Sprint` for `2.0`. There are no intermediate states.
#[derive(Clone, Copy, Debug, PartialEq, Eq, Structural)]
pub enum Speed {
    Normal,
    Sprint,
}

impl Speed {
    /// The integer factor this speed stands for: `1` or `2`.
    pub open spec fn spec_factor(self) -> u8 {
        match self {
            Speed::Normal => 1,
            Speed::Sprint => 2,
        }
    }

    /// The integer factor this speed stands for: `1` or `2`.
    pub fn factor(&self) -> (r: u8)
        ensures
            r == self.spec_factor(),
    {
        match self {
            Speed::Normal => 1,
            Speed::Sprint => 2,
        }
    }
}

/// One input event, as the host loop hands it to the controller. Mouse
/// deltas are in device units, the same units the yaw and pitch are counted
/// in. Frame ticks carry no state change for the controller itself: the
/// host integrates the position from the state read back after events.
#[derive(Clone, Copy, Debug, PartialEq, Eq, Structural)]
pub enum Event {
    /// Relative mouse motion since the last sample.
    Look { dx: i32, dy: i32 },
    /// A recognized key went down.
    KeyDown(Key),
    /// A recognized key came up.
    KeyUp(Key),
}

/// The movement controller.
///
/// `dir_x`, `dir_y`, `dir_z` are the signs, each in `{-1, 0, 1}`, of the
/// camera-local movement direction: `x` is the rightward axis (strafe-left
/// contributes `+1`, strafe-right `-1`), `y` the vertical axis (ascend
/// `+1`, descend `-1`), `z` the forward axis (forward contributes `-1`,
/// back `+1`). The realized horizontal components are these signs scaled by
/// `1/sqrt(2)` when both horizontal axes are active, so that diagonal
/// movement is not faster than axial movement; the vertical component is
/// never scaled.
///
/// `yaw` and `pitch` are in look units of `(1/360) * (pi/4)` radians: a
/// well-formed yaw lies in `[0, 2880)` (one full turn) and a well-formed
/// pitch in `[-720, 720]` (a right angle each way).
#[derive(Clone, Copy, Debug, PartialEq, Eq, Structural)]
pub struct CameraController {
    pub keys: KeySet,
    pub dir_x: i8,
    pub dir_y: i8,
    pub dir_z: i8,
    pub speed: Speed,
    pub yaw: u32,
    pub pitch: i32,
}

/// The relation a well-formed controller keeps between the two keys of one
/// axis and the sign recorded for that axis: no key held means sign `0`,
/// one key held means that key's sign, both keys held means the sign of
/// whichever was pressed last, which is one of the two.
pub open spec fn axis_consistent(neg_held: bool, pos_held: bool, sign: i8) -> bool {
    &&& (!neg_held && !pos_held) ==> sign == 0
    &&& (neg_held && !pos_held) ==> sign == -1
    &&& (!neg_held && pos_held) ==> sign == 1
    &&& (neg_held && pos_held) ==> (sign == -1 || sign == 1)
}

impl CameraController {
    /// Well-formedness: each axis sign agrees with the keys held on that
    /// axis, the yaw lies in `[0, 2880)` and the pitch in `[-720, 720]`.
    /// It holds of the initial state and is preserved by every event.
    pub open spec fn wf(self) -> bool {
        &&& axis_consistent(self.keys.strafe_right, self.keys.strafe_left, self.dir_x)
        &&& axis_consistent(self.keys.descend, self.keys.ascend, self.dir_y)
        &&& axis_consistent(self.keys.forward, self.keys.back, self.dir_z)
        &&& self.yaw < YAW_TURN_UNITS
        &&& -PITCH_LIMIT_UNITS <= self.pitch <= PITCH_LIMIT_UNITS
    }

    /// The initial state: no key held, direction zero, normal speed,
    /// looking straight ahead.
    pub open spec fn initial() -> CameraController {
        CameraController {
            keys: KeySet::empty(),
            dir_x: 0,
            dir_y: 0,
            dir_z: 0,
            speed: Speed::Normal,
            yaw: 0,
            pitch: 0,
        }
    }

    /// The state after `k` goes down: the key's flag is added and the
    /// key's own sign overwrites the sign of its axis (last write wins on
    /// the axis, whatever else is held); the other axes keep their signs.
    /// The sprint modifier only sets the speed to `Sprint`.
    pub open spec fn spec_key_down(self, k: Key) -> CameraController {
        match k {
            Key::Forward => CameraController { keys: self.keys.with(k), dir_z: -1i8, ..self },
            Key::Back => CameraController { keys: self.keys.with(k), dir_z: 1, ..self },
            Key::StrafeLeft => CameraController { keys: self.keys.with(k), dir_x: 1, ..self },
            Key::StrafeRight => CameraController { keys: self.keys.with(k), dir_x: -1i8, ..self },
            Key::Ascend => CameraController { keys: self.keys.with(k), dir_y: 1, ..self },
            Key::Descend => CameraController { keys: self.keys.with(k), dir_y: -1i8, ..self },
            Key::Sprint => CameraController { speed: Speed::Sprint, ..self },
        }
    }

    /// The state after `k` comes up: the key's flag is removed, and the
    /// sign of its axis is restored to the opposite key's sign if the
    /// opposite key is still held, otherwise zeroed; the other axes keep
    /// their signs. The sprint modifier only resets the speed to `Normal`.
    pub open spec fn spec_key_up(self, k: Key) -> CameraController {
        match k {
            Key::Forward => CameraController {
                keys: self.keys.without(k),
                dir_z: if self.keys.back { 1 } else { 0 },
                ..self
            },
            Key::Back => CameraController {
                keys: self.keys.without(k),
                dir_z: if self.keys.forward { -1i8 } else { 0 },
                ..self
            },
            Key::StrafeLeft => CameraController {
                keys: self.keys.without(k),
                dir_x: if self.keys.strafe_right { -1i8 } else { 0 },
                ..self
            },
            Key::StrafeRight => CameraController {
                keys: self.keys.without(k),
                dir_x: if self.keys.strafe_left { 1 } else { 0 },
                ..self
            },
            Key::Ascend => CameraController {
                keys: self.keys.without(k),
                dir_y: if self.keys.descend { -1i8 } else { 0 },
                ..self
            },
            Key::Descend => CameraController {
                keys: self.keys.without(k),
                dir_y: if self.keys.ascend { 1 } else { 0 },
                ..self
            },
            Key::Sprint => CameraController { speed: Speed::Normal, ..self },
        }
    }

    /// The state after a mouse motion of `(dx, dy)` device units: the yaw
    /// decreases by `dx` units and wraps into `[0, 2880)`, the pitch
    /// increases by `dy` units and clamps into `[-720, 720]`.
    pub open spec fn spec_look(self, dx: i32, dy: i32) -> CameraController {
        CameraController {
            yaw: wrap_yaw(self.yaw as int, dx as int) as u32,
            pitch: clamp_pitch(self.pitch as int, dy as int) as i32,
            ..self
        }
    }

    /// The state after one event.
    pub open spec fn spec_event(self, e: Event) -> CameraController {
        match e {
            Event::Look { dx, dy } => self.spec_look(dx, dy),
            Event::KeyDown(k) => self.spec_key_down(k),
            Event::KeyUp(k) => self.spec_key_up(k),
        }
    }

    /// A fresh controller in the initial state.
    pub fn new() -> (r: CameraController)
        ensures
            r == CameraController::initial(),
            r.wf(),
    {
        CameraController {
            keys: KeySet::new(),
            dir_x: 0,
            dir_y: 0,
            dir_z: 0,
            speed: Speed::Normal,
            yaw: 0,
            pitch: 0,
        }
    }

    /// Handle a key-down event.
    pub fn on_key_down(&mut self, k: Key)
        ensures
            *final(self) == old(self).spec_key_down(k),
    {
        match k {
            Key::Forward => {
                self.keys.press(k);
                self.dir_z = -1;
            },
            Key::Back => {
                self.keys.press(k);
                self.dir_z = 1;
            },
            Key::StrafeLeft => {
                self.keys.press(k);
                self.dir_x = 1;
            },
            Key::StrafeRight => {
                self.keys.press(k);
                self.dir_x = -1;
            },
            Key::Ascend => {
                self.keys.press(k);
                self.dir_y = 1;
            },
            Key::Descend => {
                self.keys.press(k);
                self.dir_y = -1;
            },
            Key::Sprint => {
                self.speed = Speed::Sprint;
            },
        }
    }

    /// Handle a key-up event.
    pub fn on_key_up(&mut self, k: Key)
        ensures
            *final(self) == old(self).spec_key_up(k),
    {
        match k {
            Key::Forward => {
                let restored: i8 = if self.keys.is_held(Key::Back) { 1 } else { 0 };
                self.keys.release(k);
                self.dir_z = restored;
            },
            Key::Back => {
                let restored: i8 = if self.keys.is_held(Key::Forward) { -1 } else { 0 };
                self.keys.release(k);
                self.dir_z = restored;
            },
            Key::StrafeLeft => {
                let restored: i8 = if self.keys.is_held(Key::StrafeRight) { -1 } else { 0 };
                self.keys.release(k);
                self.dir_x = restored;
            },
            Key::StrafeRight => {
                let restored: i8 = if self.keys.is_held(Key::StrafeLeft) { 1 } else { 0 };
                self.keys.release(k);
                self.dir_x = restored;
            },
            Key::Ascend => {
                let restored: i8 = if self.keys.is_held(Key::Descend) { -1 } else { 0 };
                self.keys.release(k);
                self.dir_y = restored;
            },
            Key::Descend => {
                let restored: i8 = if self.keys.is_held(Key::Ascend) { 1 } else { 0 };
                self.keys.release(k);
                self.dir_y = restored;
            },
            Key::Sprint => {
                self.speed = Speed::Normal;
            },
        }
    }

    /// Handle a relative mouse motion of `(dx, dy)` device units.
    pub fn on_look(&mut self, dx: i32, dy: i32)
        ensures
            *final(self) == old(self).spec_look(dx, dy),
    {
        self.yaw = wrap_yaw_units(self.yaw, dx);
        self.pitch = clamp_pitch_units(self.pitch, dy);
    }

    /// Dispatch one input event.
    pub fn event(&mut self, e: &Event)
        ensures
            *final(self) == old(self).spec_event(*e),
    {
        match *e {
            Event::Look { dx, dy } => self.on_look(dx, dy),
            Event::KeyDown(k) => self.on_key_down(k),
            Event::KeyUp(k) => self.on_key_up(k),
        }
    }

    /// Whether both horizontal axes are active, so that the realized
    /// horizontal components are the signs scaled by `1/sqrt(2)`.
    pub fn diagonal(&self) -> (r: bool)
        ensures
            r == (self.dir_x != 0 && self.dir_z != 0),
    {
        self.dir_x != 0 && self.dir_z != 0
    }

    /// The integer speed factor the current multiplier stands for.
    pub fn speed_factor(&self) -> (r: u8)
        ensures
            r == self.speed.spec_factor(),
    {
        self.speed.factor()
    }
}

} // verus!
