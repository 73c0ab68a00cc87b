//! The firmware type reported by the bootloader.

use vstd::prelude::*;

verus! {

/// The platform firmware the bootloader booted from.
///
/// The protocol carries this as an integer code; codes this revision does not
/// know decode to [`FirmwareType::Unknown`] so that a newer bootloader never
/// makes an older executable fail.
#[derive(Clone, Copy, Debug, PartialEq, Eq, Structural)]
pub enum FirmwareType {
    /// x86 BIOS.
    X86Bios,
    /// 32-bit UEFI.
    Uefi32,
    /// 64-bit UEFI.
    Uefi64,
    /// SBI.
    Sbi,
    /// A code this revision of the protocol does not define.
    Unknown(u64),
}

impl FirmwareType {
    /// The integer code the protocol assigns to each firmware type.
    pub open spec fn spec_code(self) -> u64 {
        match self {
            FirmwareType::X86Bios => 0,
            FirmwareType::Uefi32 => 1,
            FirmwareType::Uefi64 => 2,
            FirmwareType::Sbi => 3,
            FirmwareType::Unknown(c) => c,
        }
    }

    /// The firmware type a protocol code decodes to.
    pub open spec fn spec_from_code(code: u64) -> FirmwareType {
        if code == 0 {
            FirmwareType::X86Bios
        } else if code == 1 {
            FirmwareType::Uefi32
        } else if code == 2 {
            FirmwareType::Uefi64
        } else if code == 3 {
            FirmwareType::Sbi
        } else {
            FirmwareType::Unknown(code)
        }
    }

    /// Whether the value is one decoding can produce: `Unknown` only carries
    /// codes outside the defined range.
    pub open spec fn wf(self) -> bool {
        match self {
            FirmwareType::Unknown(c) => c > 3,
            _ => true,
        }
    }

    /// Decode a protocol code.
    pub fn from_code(code: u64) -> (r: Self)
        ensures
            r == Self::spec_from_code(code),
            r.wf(),
    {
        if code == 0 {
            FirmwareType::X86Bios
        } else if code == 1 {
            FirmwareType::Uefi32
        } else if code == 2 {
            FirmwareType::Uefi64
        } else if code == 3 {
            FirmwareType::Sbi
        } else {
            FirmwareType::Unknown(code)
        }
    }

    /// The protocol code of this firmware type.
    pub fn code(&self) -> (r: u64)
        ensures
            r == self.spec_code(),
    {
        match *self {
            FirmwareType::X86Bios => 0,
            FirmwareType::Uefi32 => 1,
            FirmwareType::Uefi64 => 2,
            FirmwareType::Sbi => 3,
            FirmwareType::Unknown(c) => c,
        }
    }
}

/// Every protocol code survives a decode unchanged, and decoding the code of
/// a decodable value gives the value back: unknown codes stay
/// distinguishable.
pub proof fn lemma_firmware_type_code_roundtrip(code: u64, t: FirmwareType)
    requires
        t.wf(),
    ensures
        FirmwareType::spec_from_code(code).spec_code() == code,
        FirmwareType::spec_from_code(t.spec_code()) == t,
{
}

} // verus!
