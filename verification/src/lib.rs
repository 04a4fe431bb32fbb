//! Construction of the flash image layout for ESP32-family chips that boot
//! through a second-stage MCUboot bootloader.
//!
//! Given the loadable segments of an application image and the chip's
//! bootloader binary, the library validates both inputs, merges the
//! application segments into one padded byte region, and exposes the
//! addressed segments to write for a full flash or an over-the-air update.

pub mod chip;
pub mod error;
pub mod image_format;
pub mod segment;
