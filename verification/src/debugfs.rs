//! The debugfs control-register channel: a general abstraction to read and
//! modify the configuration of any device hardware component given its
//! `dev_id`, including the XOR-mask discovery that makes readback reliable.

pub mod common_hardware;
pub mod config;
pub mod config_trait;
pub mod error;
pub mod readback;

pub use config::ApplyPlan;
pub use config::Hardware;
pub use config_trait::Config;
