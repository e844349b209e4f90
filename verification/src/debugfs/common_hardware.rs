//! Commonly available hardware components, each with its `dev_id` and its
//! declared state set. They serve both as direct abstractions and as examples
//! for declaring further components.

pub mod camera_led;
pub mod fan;
pub mod kbd_blacklight;
pub mod led_state;
pub mod mic_led;
