//! The hwmon PWM channel: capability-gated per-fan control.

pub mod pwm_enable;
