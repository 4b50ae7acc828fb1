//! The battery-level attribute.
//!
//! The advertised 16-bit service identifier is this service's; the level
//! itself is a raw converter reading, readable and notifiable under its
//! own handle. The periodic sampling task that would feed it is not
//! wired into the server at present, matching the device as it ships.

use vstd::prelude::*;

verus! {

/// Attribute handle of the battery level.
pub const BATTERY_LEVEL_HANDLE: u16 = 10;

/// The schema entry for the battery level.
pub struct BatteryService {
    /// The handle of the battery-level attribute.
    pub battery_level: u16,
}

impl BatteryService {
    /// The handle is the catalog's stable one.
    pub open spec fn wf(&self) -> bool {
        self.battery_level == BATTERY_LEVEL_HANDLE
    }

    /// The fixed battery attribute catalog.
    pub fn new() -> (s: Self)
        ensures
            s.wf(),
    {
        BatteryService { battery_level: BATTERY_LEVEL_HANDLE }
    }
}

} // verus!
