//! Errors reported while assembling a flash image.

use vstd::prelude::*;

verus! {

/// Why image construction was rejected.
#[derive(Debug, Clone, Copy, PartialEq, Eq, Structural)]
pub enum Error {
    /// No bootloader bytes were supplied and the chip descriptor carries no
    /// default bootloader either.
    MissingDefault,
    /// The resolved bootloader bytes do not start with a valid header.
    InvalidBootloader,
    /// The merged application payload is not laid out as an MCUboot image.
    InvalidMcuBootBinary,
}

impl Error {
    /// A short human-readable description of the error.
    pub fn describe(&self) -> (r: &'static str)
        ensures
            r@ == self.spec_describe(),
    {
        match self {
            Error::MissingDefault => "no bootloader was supplied and the chip has no default",
            Error::InvalidBootloader => "invalid bootloader header",
            Error::InvalidMcuBootBinary => "application is not a valid MCUboot binary",
        }
    }

    /// What `describe` returns for each variant.
    pub open spec fn spec_describe(&self) -> Seq<char> {
        match self {
            Error::MissingDefault => "no bootloader was supplied and the chip has no default"@,
            Error::InvalidBootloader => "invalid bootloader header"@,
            Error::InvalidMcuBootBinary => "application is not a valid MCUboot binary"@,
        }
    }
}

} // verus!
