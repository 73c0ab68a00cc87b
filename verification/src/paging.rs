//! Paging modes the executable can negotiate.

use vstd::prelude::*;

verus! {

/// A paging mode, as negotiated through the paging-mode request.
///
/// The catalog is per-architecture; this crate carries the x86_64 family,
/// where deeper translation trees widen the virtual address space. Codes this
/// revision does not know decode to [`Mode::Unknown`].
#[derive(Clone, Copy, Debug, PartialEq, Eq, Structural)]
pub enum Mode {
    /// Four-level paging: 48-bit virtual addresses.
    FourLevel,
    /// Five-level paging: 52-bit virtual addresses.
    FiveLevel,
    /// A code this revision of the protocol does not define.
    Unknown(u64),
}

impl Mode {
    /// The integer code the protocol assigns to each mode.
    pub open spec fn spec_code(self) -> u64 {
        match self {
            Mode::FourLevel => 0,
            Mode::FiveLevel => 1,
            Mode::Unknown(c) => c,
        }
    }

    /// The mode a protocol code decodes to.
    pub open spec fn spec_from_code(code: u64) -> Mode {
        if code == 0 {
            Mode::FourLevel
        } else if code == 1 {
            Mode::FiveLevel
        } else {
            Mode::Unknown(code)
        }
    }

    /// Whether the value is one decoding can produce: `Unknown` only carries
    /// codes outside the defined range.
    pub open spec fn wf(self) -> bool {
        match self {
            Mode::Unknown(c) => c > 1,
            _ => true,
        }
    }

    /// Decode a protocol code.
    pub fn from_code(code: u64) -> (r: Self)
        ensures
            r == Self::spec_from_code(code),
            r.wf(),
    {
        if code == 0 {
            Mode::FourLevel
        } else if code == 1 {
            Mode::FiveLevel
        } else {
            Mode::Unknown(code)
        }
    }

    /// The protocol code of this mode.
    pub fn code(&self) -> (r: u64)
        ensures
            r == self.spec_code(),
    {
        match *self {
            Mode::FourLevel => 0,
            Mode::FiveLevel => 1,
            Mode::Unknown(c) => c,
        }
    }

    /// The mode a request asks for when the executable expresses no
    /// preference.
    pub fn default_mode() -> (r: Mode)
        ensures
            r == Mode::FourLevel,
    {
        Mode::FourLevel
    }

    /// The deepest mode this catalog defines.
    pub fn max_mode() -> (r: Mode)
        ensures
            r == Mode::FiveLevel,
    {
        Mode::FiveLevel
    }

    /// The shallowest mode this catalog defines.
    pub fn min_mode() -> (r: Mode)
        ensures
            r == Mode::FourLevel,
    {
        Mode::FourLevel
    }
}

impl From<u64> for Mode {
    /// Decode a protocol code, as [`Mode::from_code`] does.
    fn from(value: u64) -> (r: Self) {
        Mode::from_code(value)
    }
}

impl vstd::std_specs::convert::FromSpecImpl<u64> for Mode {
    open spec fn obeys_from_spec() -> bool {
        true
    }

    open spec fn from_spec(value: u64) -> Self {
        Mode::spec_from_code(value)
    }
}

/// Every protocol code survives a decode unchanged, and decoding the code of
/// a decodable value gives the value back.
pub proof fn lemma_mode_code_roundtrip(code: u64, m: Mode)
    requires
        m.wf(),
    ensures
        Mode::spec_from_code(code).spec_code() == code,
        Mode::spec_from_code(m.spec_code()) == m,
{
}

} // verus!
