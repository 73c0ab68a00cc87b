//! Multiprocessor discovery and wake-up.
//!
//! The bootloader publishes one descriptor per logical processor. Every
//! secondary processor sits parked in a bootloader stub, watching the
//! jump-target slot of its own descriptor; the executable starts it by
//! writing an entry-point address into that slot. The real write is a
//! release-ordered store paired with the parked processor's acquire read, so
//! everything written before the dispatch is visible to the woken processor.
//! This crate records the dispatch as the slot's single transition from
//! parked to a non-zero target.
//!
//! Descriptor layout differs per architecture; this crate carries the x86_64
//! form.

use vstd::prelude::*;

verus! {

/// The bit asking the bootloader to initialize the X2APIC.
pub const MP_REQUEST_FLAG_X2APIC: u64 = 1;

/// The bit reporting that the X2APIC was initialized.
pub const MP_RESPONSE_FLAG_X2APIC: u32 = 1;

/// Flags the executable may set in the MP request.
#[derive(Clone, Copy, Debug, PartialEq, Eq, Structural)]
pub struct RequestFlags {
    /// The raw flag bits.
    pub bits: u64,
}

impl RequestFlags {
    /// No flags set.
    pub fn empty() -> (r: Self)
        ensures
            r.bits == 0,
    {
        RequestFlags { bits: 0 }
    }

    /// The flag asking the bootloader to initialize the X2APIC.
    pub fn x2apic() -> (r: Self)
        ensures
            r.bits == MP_REQUEST_FLAG_X2APIC,
    {
        RequestFlags { bits: MP_REQUEST_FLAG_X2APIC }
    }

    /// Wrap raw flag bits.
    pub fn from_bits(bits: u64) -> (r: Self)
        ensures
            r.bits == bits,
    {
        RequestFlags { bits }
    }

    /// The raw flag bits.
    pub fn bits(&self) -> (r: u64)
        ensures
            r == self.bits,
    {
        self.bits
    }

    /// Both sets of flags together.
    pub fn union(self, other: Self) -> (r: Self)
        ensures
            r.bits == self.bits | other.bits,
    {
        RequestFlags { bits: self.bits | other.bits }
    }

    /// Whether every flag of `other` is also set in `self`.
    pub fn contains(self, other: Self) -> (r: bool)
        ensures
            r == (self.bits & other.bits == other.bits),
    {
        self.bits & other.bits == other.bits
    }
}

/// Flags the bootloader reports in the MP response.
#[derive(Clone, Copy, Debug, PartialEq, Eq, Structural)]
pub struct ResponseFlags {
    /// The raw flag bits.
    pub bits: u32,
}

impl ResponseFlags {
    /// No flags set.
    pub fn empty() -> (r: Self)
        ensures
            r.bits == 0,
    {
        ResponseFlags { bits: 0 }
    }

    /// The flag reporting that the X2APIC was initialized.
    pub fn x2apic() -> (r: Self)
        ensures
            r.bits == MP_RESPONSE_FLAG_X2APIC,
    {
        ResponseFlags { bits: MP_RESPONSE_FLAG_X2APIC }
    }

    /// Wrap raw flag bits.
    pub fn from_bits(bits: u32) -> (r: Self)
        ensures
            r.bits == bits,
    {
        ResponseFlags { bits }
    }

    /// The raw flag bits.
    pub fn bits(&self) -> (r: u32)
        ensures
            r == self.bits,
    {
        self.bits
    }

    /// Whether every flag of `other` is also set in `self`.
    pub fn contains(self, other: Self) -> (r: bool)
        ensures
            r == (self.bits & other.bits == other.bits),
    {
        self.bits & other.bits == other.bits
    }
}

/// The jump-target slot of a processor descriptor.
///
/// The slot starts parked (zero). Writing a non-zero entry-point address is
/// the sole mechanism that starts the descriptor's processor, and the
/// protocol allows it at most once: the woken processor never returns, and
/// writing again after dispatch is undefined. The write is the only
/// executable-side store the protocol orders (release, paired with the
/// parked processor's acquire read).
pub struct GotoAddress {
    target: u64,
}

impl GotoAddress {
    /// The address in the slot; zero while parked.
    pub closed spec fn spec_target(&self) -> u64 {
        self.target
    }

    /// Whether the slot still holds the parked sentinel.
    pub open spec fn is_parked(&self) -> bool {
        self.spec_target() == 0
    }

    /// What `get` reads from the slot.
    pub open spec fn spec_get(&self) -> Option<u64> {
        if self.is_parked() {
            Option::None
        } else {
            Option::Some(self.spec_target())
        }
    }

    /// A parked slot.
    pub fn new() -> (r: Self)
        ensures
            r.is_parked(),
    {
        GotoAddress { target: 0 }
    }

    /// Dispatch the processor: write the entry-point address into the slot.
    /// The woken processor jumps to `func`, receiving a pointer to its own
    /// descriptor on a dedicated stack.
    pub fn write(&mut self, func: u64)
        requires
            old(self).is_parked(),
            func != 0,
        ensures
            final(self).spec_target() == func,
    {
        self.target = func;
    }

    /// Read the slot: the dispatched entry point, or nothing while parked.
    pub fn get(&self) -> (r: Option<u64>)
        ensures
            r == self.spec_get(),
    {
        if self.target == 0 {
            None
        } else {
            Some(self.target)
        }
    }
}

/// A dispatch is observable at once: a slot whose single write stored the
/// entry point `func` reads back as exactly `Some(func)`. Across the real
/// release/acquire pairing, the same read is what the woken processor
/// performs.
pub proof fn lemma_dispatch_observable(g: GotoAddress, func: u64)
    requires
        func != 0,
        g.spec_target() == func,
    ensures
        g.spec_get() == Option::Some(func),
{
}

/// One processor descriptor in the MP response (x86_64 form).
pub struct Cpu {
    /// The ACPI processor ID, according to the ACPI MADT.
    pub id: u32,
    /// The local APIC ID, according to the ACPI MADT.
    pub lapic_id: u32,
    /// The jump-target slot. Writing it starts this processor.
    pub goto_address: GotoAddress,
    /// Free for use by the executable.
    pub extra: u64,
}

impl Cpu {
    /// A descriptor as the bootloader publishes it: parked, with a zeroed
    /// scratch field.
    pub fn new(id: u32, lapic_id: u32) -> (r: Self)
        ensures
            r.id == id,
            r.lapic_id == lapic_id,
            r.goto_address.is_parked(),
            r.extra == 0,
    {
        Cpu { id, lapic_id, goto_address: GotoAddress::new(), extra: 0 }
    }
}

} // verus!
