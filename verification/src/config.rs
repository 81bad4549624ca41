//! The configuration of a test device.

use vstd::prelude::*;

verus! {

/// Which device this is.
#[derive(Debug)]
pub struct DeviceConfig {
    pub instance: String,
    pub id: String,
}

} // verus!
