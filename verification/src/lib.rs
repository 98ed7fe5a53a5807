//! Gesture classification and layered gesture-action configuration.
//!
//! The crate turns raw multi-touch trackpad telemetry (begin/update/end
//! sequences carrying finger count, position deltas, rotation angle and pinch
//! scale) into discrete gestures, and resolves each recognized gesture to a
//! configured action string through a per-application configuration document.
//!
//! All continuous quantities are carried as fixed-point integers in
//! thousandths of a unit (milli-units): positions in milli-pixels, angles in
//! milli-degrees, pinch scale in milli-scale where 1000 is a scale of one.
//! Callers that obtain floating-point telemetry convert at the boundary.

pub mod configuration;
pub mod events;
pub mod gestures;
pub mod paths;
