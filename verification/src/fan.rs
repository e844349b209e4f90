//! Fan configurations shared by the PWM channel.

pub mod configurations;

pub use configurations::AsusNbWmiFanMode;
pub use configurations::AsusNbWmiFanModeError;
