//! The recognized keys and the set of movement keys currently held.

use vstd::prelude::*;

verus! {

/// A key the controller recognizes: one per movement flag, plus the sprint
/// modifier. Anything else on the keyboard is filtered out by the host loop
/// before it reaches the controller.
#[derive(Clone, Copy, Debug, PartialEq, Eq, Structural)]
pub enum Key {
    /// Move along the forward axis (`z = -1`).
    Forward,
    /// Move along the backward axis (`z = +1`).
    Back,
    /// Strafe to the left (`x = +1`).
    StrafeLeft,
    /// Strafe to the right (`x = -1`).
    StrafeRight,
    /// Fly upwards (`y = +1`).
    Ascend,
    /// Fly downwards (`y = -1`).
    Descend,
    /// Double the horizontal speed while held.
    Sprint,
}

/// Which of the six movement keys are physically held right now. A flag is
/// present exactly while the key is down: it is set by a key-down event and
/// cleared by the matching key-up event, never inferred. The sprint modifier
/// has no flag; it acts directly on the speed multiplier.
#[derive(Clone, Copy, Debug, PartialEq, Eq, Structural)]
pub struct KeySet {
    pub forward: bool,
    pub back: bool,
    pub strafe_left: bool,
    pub strafe_right: bool,
    pub ascend: bool,
    pub descend: bool,
}

impl KeySet {
    /// The set with no key held.
    pub open spec fn empty() -> KeySet {
        KeySet {
            forward: false,
            back: false,
            strafe_left: false,
            strafe_right: false,
            ascend: false,
            descend: false,
        }
    }

    /// Whether `k` is held. The sprint modifier is never tracked here.
    pub open spec fn contains(self, k: Key) -> bool {
        match k {
            Key::Forward => self.forward,
            Key::Back => self.back,
            Key::StrafeLeft => self.strafe_left,
            Key::StrafeRight => self.strafe_right,
            Key::Ascend => self.ascend,
            Key::Descend => self.descend,
            Key::Sprint => false,
        }
    }

    /// The set after `k` goes down: its flag added, nothing else changed.
    pub open spec fn with(self, k: Key) -> KeySet {
        match k {
            Key::Forward => KeySet { forward: true, ..self },
            Key::Back => KeySet { back: true, ..self },
            Key::StrafeLeft => KeySet { strafe_left: true, ..self },
            Key::StrafeRight => KeySet { strafe_right: true, ..self },
            Key::Ascend => KeySet { ascend: true, ..self },
            Key::Descend => KeySet { descend: true, ..self },
            Key::Sprint => self,
        }
    }

    /// The set after `k` comes up: its flag removed, nothing else changed.
    pub open spec fn without(self, k: Key) -> KeySet {
        match k {
            Key::Forward => KeySet { forward: false, ..self },
            Key::Back => KeySet { back: false, ..self },
            Key::StrafeLeft => KeySet { strafe_left: false, ..self },
            Key::StrafeRight => KeySet { strafe_right: false, ..self },
            Key::Ascend => KeySet { ascend: false, ..self },
            Key::Descend => KeySet { descend: false, ..self },
            Key::Sprint => self,
        }
    }

    /// Construct the empty set.
    pub fn new() -> (r: KeySet)
        ensures
            r == KeySet::empty(),
    {
        KeySet {
            forward: false,
            back: false,
            strafe_left: false,
            strafe_right: false,
            ascend: false,
            descend: false,
        }
    }

    /// Membership test for a key.
    pub fn is_held(&self, k: Key) -> (r: bool)
        ensures
            r == self.contains(k),
    {
        match k {
            Key::Forward => self.forward,
            Key::Back => self.back,
            Key::StrafeLeft => self.strafe_left,
            Key::StrafeRight => self.strafe_right,
            Key::Ascend => self.ascend,
            Key::Descend => self.descend,
            Key::Sprint => false,
        }
    }

    /// Record that `k` went down.
    pub fn press(&mut self, k: Key)
        ensures
            *final(self) == old(self).with(k),
    {
        match k {
            Key::Forward => self.forward = true,
            Key::Back => self.back = true,
            Key::StrafeLeft => self.strafe_left = true,
            Key::StrafeRight => self.strafe_right = true,
            Key::Ascend => self.ascend = true,
            Key::Descend => self.descend = true,
            Key::Sprint => {},
        }
    }

    /// Record that `k` came up.
    pub fn release(&mut self, k: Key)
        ensures
            *final(self) == old(self).without(k),
    {
        match k {
            Key::Forward => self.forward = false,
            Key::Back => self.back = false,
            Key::StrafeLeft => self.strafe_left = false,
            Key::StrafeRight => self.strafe_right = false,
            Key::Ascend => self.ascend = false,
            Key::Descend => self.descend = false,
            Key::Sprint => {},
        }
    }
}

} // verus!
