//! Properties of the controller proved once and for all: the horizontal
//! direction is always zero or unit length, well-formedness is preserved by
//! every event sequence, releases restore or zero an axis, the sprint
//! toggle is idempotent, and releasing an untracked key changes nothing.

use vstd::prelude::*;
use crate::controller::CameraController;
use crate::controller::Event;
use crate::controller::Speed;
use crate::keys::Key;

verus! {

/// Twice the squared length of the realized horizontal direction `(x, z)`.
/// When both axes are active each realized component is the sign divided by
/// `sqrt(2)`, so its square is half the squared sign; otherwise the
/// components are the signs themselves. Doubling keeps the value an
/// integer in every case.
pub open spec fn double_sq_horizontal_mag(s: CameraController) -> int {
    if s.dir_x != 0 && s.dir_z != 0 {
        s.dir_x * s.dir_x + s.dir_z * s.dir_z
    } else {
        2 * (s.dir_x * s.dir_x + s.dir_z * s.dir_z)
    }
}

/// The horizontal direction of a well-formed controller is the zero vector
/// or a unit vector: twice its squared length is `0` or `2`, never the `4`
/// that an unscaled diagonal would give. Diagonal movement is therefore
/// never faster than axial movement.
pub proof fn lemma_horizontal_direction_unit(s: CameraController)
    requires
        s.wf(),
    ensures
        double_sq_horizontal_mag(s) == 0 || double_sq_horizontal_mag(s) == 2,
{
}

/// Every single event preserves well-formedness: the axis signs stay
/// consistent with the held keys, the yaw stays in `[0, 2880)` and the
/// pitch stays in `[-720, 720]`, whatever the mouse deltas are.
pub proof fn lemma_event_preserves_wf(s: CameraController, e: Event)
    requires
        s.wf(),
    ensures
        s.spec_event(e).wf(),
{
}

/// The state after a whole sequence of events, applied in order.
pub open spec fn apply_events(s: CameraController, es: Seq<Event>) -> CameraController
    decreases es.len(),
{
    if es.len() == 0 {
        s
    } else {
        apply_events(s.spec_event(es[0]), es.subrange(1, es.len() as int))
    }
}

/// Well-formedness is preserved by every event sequence. In particular
/// every state reachable from the initial state keeps the horizontal
/// direction zero or unit, the yaw in `[0, 2880)` and the pitch in
/// `[-720, 720]`.
pub proof fn lemma_apply_events_preserves_wf(s: CameraController, es: Seq<Event>)
    requires
        s.wf(),
    ensures
        apply_events(s, es).wf(),
    decreases es.len(),
{
    if es.len() > 0 {
        lemma_event_preserves_wf(s, es[0]);
        lemma_apply_events_preserves_wf(s.spec_event(es[0]), es.subrange(1, es.len() as int));
    }
}

/// From the initial state, any sequence of events whatsoever leaves the
/// horizontal direction the zero vector or a unit vector: twice its
/// squared length is `0` or `2`.
pub proof fn lemma_reachable_horizontal_unit(es: Seq<Event>)
    ensures
        apply_events(CameraController::initial(), es).wf(),
        double_sq_horizontal_mag(apply_events(CameraController::initial(), es)) == 0
            || double_sq_horizontal_mag(apply_events(CameraController::initial(), es)) == 2,
{
    lemma_apply_events_preserves_wf(CameraController::initial(), es);
    lemma_horizontal_direction_unit(apply_events(CameraController::initial(), es));
}

/// The key that drives the same axis as `k` in the other direction. The
/// sprint modifier drives no axis and is its own opposite.
pub open spec fn opposite(k: Key) -> Key {
    match k {
        Key::Forward => Key::Back,
        Key::Back => Key::Forward,
        Key::StrafeLeft => Key::StrafeRight,
        Key::StrafeRight => Key::StrafeLeft,
        Key::Ascend => Key::Descend,
        Key::Descend => Key::Ascend,
        Key::Sprint => Key::Sprint,
    }
}

/// The sign `k` contributes to its axis while held; `0` for the sprint
/// modifier, which drives no axis.
pub open spec fn key_sign(k: Key) -> i8 {
    match k {
        Key::Forward => -1i8,
        Key::Back => 1,
        Key::StrafeLeft => 1,
        Key::StrafeRight => -1i8,
        Key::Ascend => 1,
        Key::Descend => -1i8,
        Key::Sprint => 0,
    }
}

/// The sign currently recorded for the axis `k` drives; `0` for the sprint
/// modifier.
pub open spec fn axis_sign(s: CameraController, k: Key) -> i8 {
    match k {
        Key::Forward | Key::Back => s.dir_z,
        Key::StrafeLeft | Key::StrafeRight => s.dir_x,
        Key::Ascend | Key::Descend => s.dir_y,
        Key::Sprint => 0,
    }
}

/// Releasing a movement key while its opposite is held restores the
/// opposite key's contribution on that axis, not zero.
pub proof fn lemma_release_restores_opposite(s: CameraController, k: Key)
    requires
        k != Key::Sprint,
        s.keys.contains(opposite(k)),
    ensures
        axis_sign(s.spec_key_up(k), k) == key_sign(opposite(k)),
{
}

/// Releasing a movement key while its opposite is not held zeroes that
/// axis.
pub proof fn lemma_release_zeroes_axis(s: CameraController, k: Key)
    requires
        k != Key::Sprint,
        !s.keys.contains(opposite(k)),
    ensures
        axis_sign(s.spec_key_up(k), k) == 0,
{
}

/// The sprint toggle has exactly two states: any press sets the factor-two
/// speed, a second press without a release changes nothing further, and
/// any release resets the factor-one speed.
pub proof fn lemma_sprint_toggle(s: CameraController)
    ensures
        s.spec_key_down(Key::Sprint).speed == Speed::Sprint,
        s.spec_key_down(Key::Sprint).spec_key_down(Key::Sprint) == s.spec_key_down(Key::Sprint),
        s.spec_key_up(Key::Sprint).speed == Speed::Normal,
{
}

/// Releasing a movement key that is not currently held leaves a
/// well-formed controller exactly as it was.
pub proof fn lemma_release_untracked_is_noop(s: CameraController, k: Key)
    requires
        s.wf(),
        k != Key::Sprint,
        !s.keys.contains(k),
    ensures
        s.spec_key_up(k) == s,
{
}

} // verus!
