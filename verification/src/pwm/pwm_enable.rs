//! The `pwm<N>_enable` control-file handle, gated at the type level by a
//! read-only or read-write capability marker.

pub mod error;
pub mod logic;
pub mod traits;

pub use logic::PwmEnable;
pub use logic::PwmEnableReadOnly;
pub use logic::PwmEnableReadWrite;
