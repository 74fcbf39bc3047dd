//! First-person fly-camera movement controller.
//!
//! The controller turns a stream of input events (mouse deltas, key presses
//! and releases) into a persistent orientation and a normalized movement
//! direction. All state is kept in exact integer form so that every update
//! can be specified and proved precisely:
//!
//! * Angles are counted in *look units*: one unit is the rotation produced by
//!   one device unit of mouse motion, `(1/360) * (pi/4)` radians. A full turn
//!   is therefore `2880` units, and the pitch limit of `pi/2` is `720` units.
//! * The movement direction is held as one sign per axis, in `{-1, 0, 1}`,
//!   together with the rule that when both horizontal axes are active each
//!   component is scaled by `1/sqrt(2)`. The scaled components themselves are
//!   floating-point values that the embedding computes from these signs.
//! * The speed multiplier is a two-valued enum standing for the factors
//!   `1.0` (normal) and `2.0` (sprint).
//!
//! Position integration (`dt`-scaled displacement rotated by the yaw) is
//! floating-point arithmetic and is left to the host loop, which reads the
//! exact state through the public fields and getters.

pub mod angle;
pub mod controller;
pub mod keys;
pub mod laws;

pub use angle::PITCH_LIMIT_UNITS;
pub use angle::YAW_TURN_UNITS;
pub use controller::CameraController;
pub use controller::Event;
pub use controller::Speed;
pub use keys::Key;
pub use keys::KeySet;
