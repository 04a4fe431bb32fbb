//! Chip descriptors: where the bootloader and the application live in flash.

use vstd::prelude::*;

verus! {

/// Immutable description of an ESP32-family chip target: the flash address of
/// the bootloader region, the flash address of the application region, and an
/// optional default second-stage bootloader to use when the caller supplies
/// none.
pub struct Esp32Params {
    /// Flash address at which the bootloader is written.
    pub boot_addr: u32,
    /// Flash address at which the application is written.
    pub app_addr: u32,
    /// Default second-stage bootloader bytes, if the chip ships one.
    pub default_mcuboot: Option<Vec<u8>>,
}

impl Esp32Params {
    /// Builds a chip descriptor from its parts.
    pub fn new(boot_addr: u32, app_addr: u32, default_mcuboot: Option<Vec<u8>>) -> (r: Self)
        ensures
            r.boot_addr == boot_addr,
            r.app_addr == app_addr,
            r.default_mcuboot == default_mcuboot,
    {
        Esp32Params { boot_addr, app_addr, default_mcuboot }
    }
}

} // verus!
