use vstd::prelude::*;

verus! {

/// Why a cartridge header was rejected.
#[derive(Clone, Copy, Debug, PartialEq, Eq, Structural)]
pub enum HeaderFault {
    /// The image ends before the last header byte.
    TooShort,
    /// The title is not valid UTF-8.
    Title,
    /// The ROM size byte names no supported bank count.
    RomBankCount,
    /// The RAM size byte names no supported bank count.
    RamBankCount,
    /// The destination byte is neither Japanese nor overseas.
    Destination,
}

impl HeaderFault {
    /// The fault in a few words.
    pub open spec fn words(self) -> &'static str {
        match self {
            HeaderFault::TooShort => "Header is too short",
            HeaderFault::Title => "Invalid title",
            HeaderFault::RomBankCount => "Invalid rom bank count",
            HeaderFault::RamBankCount => "Invalid ram bank count",
            HeaderFault::Destination => "Invalid destination",
        }
    }

    pub fn reason(&self) -> (r: &'static str)
        ensures
            r == self.words(),
    {
        match self {
            HeaderFault::TooShort => "Header is too short",
            HeaderFault::Title => "Invalid title",
            HeaderFault::RomBankCount => "Invalid rom bank count",
            HeaderFault::RamBankCount => "Invalid ram bank count",
            HeaderFault::Destination => "Invalid destination",
        }
    }
}

/// Failures that can surface while a machine is built or restored.
#[derive(Clone, Copy, Debug, PartialEq, Eq, Structural)]
pub enum Error {
    MissingBootrom,
    InvalidBootRom,
    InvalidSave,
    InvalidRtcData,
    SaveNotSupported,
    InvalidRomHeader(HeaderFault),
    UnsupportedMapper(u8),
}

} // verus!
