//! Protocol engines for the kernel-exposed hardware controls of a family of
//! laptops: a debugfs control-register channel whose reliable read must first
//! discover an undocumented XOR mask, and a capability-gated hwmon PWM channel
//! for per-fan control files.
//!
//! The crate holds the pure protocol logic: codecs between raw register values
//! and declared hardware states, the DSTS/DEVS readback parsers, the mask
//! discovery state machine, and the PWM path and byte handling. Callers
//! perform the actual file reads and writes and hand the texts in and out.

pub mod codec;
pub mod debugfs;
pub mod fan;
pub mod pwm;
pub mod text;
