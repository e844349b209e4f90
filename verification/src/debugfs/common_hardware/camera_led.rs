//! The camera LED key.

use crate::debugfs::common_hardware::led_state::LedState;
use crate::debugfs::config::Hardware;
use vstd::prelude::*;

verus! {

pub const DEV_ID: u64 = 0x00060079;

/// The camera LED channel, bound to its `dev_id`, mask not yet discovered.
pub fn get() -> (h: Hardware<LedState>)
    ensures
        h.spec_dev_id() == DEV_ID,
        h.spec_mask() is None,
{
    Hardware::new(DEV_ID)
}

} // verus!
