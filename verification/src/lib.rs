//! Bring-up logic for a graphics-API-backed application: planning instance
//! creation with optional diagnostics, routing driver messages, resolving
//! the queue families needed for drawing and presentation, selecting a
//! physical device first-fit, planning logical-device creation, and
//! sequencing teardown in reverse-dependency order. Every decision here is
//! a pure function over plain values, verified; the driver and window
//! round-trips that feed it live outside this crate.

pub mod bytes;
pub mod device;
pub mod diagnostics;
pub mod errors;
pub mod instance;
pub mod lifecycle;
pub mod names;
pub mod queue;
pub mod select;
