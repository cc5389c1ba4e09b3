//! Animation timing: a logical millisecond clock, the driver that hands its
//! tick to dependent bindings once per frame, and the time source that feeds it.

pub mod driver;
pub mod instant;
pub mod time_source;

pub use crate::driver::{current_tick, AnimationDriver};
pub use crate::instant::Instant;
