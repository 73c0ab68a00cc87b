//! The physical memory map the bootloader publishes.

use vstd::prelude::*;

verus! {

/// The byte granule the protocol aligns usable regions to.
pub const PAGE_SIZE: u64 = 4096;

/// The region class of a memory map entry.
///
/// The protocol carries this as an integer code; codes this revision does not
/// know decode to [`EntryType::Unknown`] so that a newer bootloader never
/// makes an older executable fail.
#[derive(Clone, Copy, Debug, PartialEq, Eq, Structural)]
pub enum EntryType {
    /// The region is freely usable.
    Usable,
    /// The region is permanently reserved.
    Reserved,
    /// The region is used by ACPI but can be reclaimed once its structures
    /// are no longer needed.
    AcpiReclaimable,
    /// The region is permanently reserved by ACPI.
    AcpiNvs,
    /// The region is unusable due to physical damage or similar errors.
    BadMemory,
    /// The region is used by the bootloader but can be reclaimed once every
    /// response has been processed.
    BootloaderReclaimable,
    /// The region holds the kernel and its modules.
    KernelAndModules,
    /// The region holds the framebuffer.
    Framebuffer,
    /// A code this revision of the protocol does not define.
    Unknown(u64),
}

impl EntryType {
    /// The integer code the protocol assigns to each region class.
    pub open spec fn spec_code(self) -> u64 {
        match self {
            EntryType::Usable => 0,
            EntryType::Reserved => 1,
            EntryType::AcpiReclaimable => 2,
            EntryType::AcpiNvs => 3,
            EntryType::BadMemory => 4,
            EntryType::BootloaderReclaimable => 5,
            EntryType::KernelAndModules => 6,
            EntryType::Framebuffer => 7,
            EntryType::Unknown(c) => c,
        }
    }

    /// The region class a protocol code decodes to.
    pub open spec fn spec_from_code(code: u64) -> EntryType {
        if code == 0 {
            EntryType::Usable
        } else if code == 1 {
            EntryType::Reserved
        } else if code == 2 {
            EntryType::AcpiReclaimable
        } else if code == 3 {
            EntryType::AcpiNvs
        } else if code == 4 {
            EntryType::BadMemory
        } else if code == 5 {
            EntryType::BootloaderReclaimable
        } else if code == 6 {
            EntryType::KernelAndModules
        } else if code == 7 {
            EntryType::Framebuffer
        } else {
            EntryType::Unknown(code)
        }
    }

    /// Whether the value is one decoding can produce: `Unknown` only carries
    /// codes outside the defined range.
    pub open spec fn wf(self) -> bool {
        match self {
            EntryType::Unknown(c) => c > 7,
            _ => true,
        }
    }

    /// Decode a protocol code.
    pub fn from_code(code: u64) -> (r: Self)
        ensures
            r == Self::spec_from_code(code),
            r.wf(),
    {
        if code == 0 {
            EntryType::Usable
        } else if code == 1 {
            EntryType::Reserved
        } else if code == 2 {
            EntryType::AcpiReclaimable
        } else if code == 3 {
            EntryType::AcpiNvs
        } else if code == 4 {
            EntryType::BadMemory
        } else if code == 5 {
            EntryType::BootloaderReclaimable
        } else if code == 6 {
            EntryType::KernelAndModules
        } else if code == 7 {
            EntryType::Framebuffer
        } else {
            EntryType::Unknown(code)
        }
    }

    /// The protocol code of this region class.
    pub fn code(&self) -> (r: u64)
        ensures
            r == self.spec_code(),
    {
        match *self {
            EntryType::Usable => 0,
            EntryType::Reserved => 1,
            EntryType::AcpiReclaimable => 2,
            EntryType::AcpiNvs => 3,
            EntryType::BadMemory => 4,
            EntryType::BootloaderReclaimable => 5,
            EntryType::KernelAndModules => 6,
            EntryType::Framebuffer => 7,
            EntryType::Unknown(c) => c,
        }
    }
}

impl From<u64> for EntryType {
    /// Decode a protocol code, as [`EntryType::from_code`] does.
    fn from(value: u64) -> (r: Self) {
        EntryType::from_code(value)
    }
}

impl vstd::std_specs::convert::FromSpecImpl<u64> for EntryType {
    open spec fn obeys_from_spec() -> bool {
        true
    }

    open spec fn from_spec(value: u64) -> Self {
        EntryType::spec_from_code(value)
    }
}

/// Every protocol code survives a decode unchanged, and decoding the code of
/// a decodable value gives the value back: unknown codes stay
/// distinguishable.
pub proof fn lemma_entry_type_code_roundtrip(code: u64, t: EntryType)
    requires
        t.wf(),
    ensures
        EntryType::spec_from_code(code).spec_code() == code,
        EntryType::spec_from_code(t.spec_code()) == t,
{
}

/// One memory map entry: a physical region and its class.
#[derive(Clone, Copy, Debug, PartialEq, Eq, Structural)]
pub struct Entry {
    /// The base of the region, in physical space.
    pub base: u64,
    /// The length of the region, in bytes.
    pub length: u64,
    /// The class of the region.
    pub entry_type: EntryType,
}

/// The first address past an entry's region.
pub open spec fn entry_end(e: Entry) -> int {
    e.base + e.length
}

/// The classes whose entries the protocol guarantees page-aligned and
/// mutually disjoint: usable and bootloader-reclaimable. Other classes carry
/// no such guarantee.
pub open spec fn aligned_class(t: EntryType) -> bool {
    t == EntryType::Usable || t == EntryType::BootloaderReclaimable
}

/// Whether two entries' regions share an address.
pub open spec fn ranges_overlap(a: Entry, b: Entry) -> bool {
    let lo = if a.base >= b.base {
        a.base as int
    } else {
        b.base as int
    };
    lo < entry_end(a) && lo < entry_end(b)
}

/// Entries come in non-decreasing order of base address.
pub open spec fn entries_sorted(s: Seq<Entry>) -> bool {
    forall|i: int, j: int| 0 <= i <= j < s.len() ==> s[i].base <= s[j].base
}

/// Usable and bootloader-reclaimable entries are page-aligned in base and
/// length.
pub open spec fn entries_aligned(s: Seq<Entry>) -> bool {
    forall|i: int|
        0 <= i < s.len() && aligned_class(#[trigger] s[i].entry_type) ==> s[i].base % PAGE_SIZE
            == 0 && s[i].length % PAGE_SIZE == 0
}

/// No two usable or bootloader-reclaimable entries share an address.
pub open spec fn entries_disjoint(s: Seq<Entry>) -> bool {
    forall|i: int, j: int|
        0 <= i < j < s.len() && aligned_class(s[i].entry_type) && aligned_class(
            s[j].entry_type,
        ) ==> !ranges_overlap(s[i], s[j])
}

/// Everything the protocol guarantees of a published memory map.
pub open spec fn memory_map_wf(s: Seq<Entry>) -> bool {
    entries_sorted(s) && entries_aligned(s) && entries_disjoint(s)
}

/// In a well-formed map, no two distinct usable or bootloader-reclaimable
/// entries share an address, whichever order they are taken in.
pub proof fn lemma_guaranteed_entries_disjoint(s: Seq<Entry>, i: int, j: int)
    requires
        memory_map_wf(s),
        0 <= i < s.len(),
        0 <= j < s.len(),
        i != j,
        aligned_class(s[i].entry_type),
        aligned_class(s[j].entry_type),
    ensures
        !ranges_overlap(s[i], s[j]),
{
    if j < i {
        assert(!ranges_overlap(s[j], s[i]));
    }
}

/// Decide [`memory_map_wf`] for a published run of entries: sortedness,
/// alignment of the guaranteed classes, and their mutual disjointness.
pub fn check_memory_map(entries: &Vec<Entry>) -> (r: bool)
    ensures
        r == memory_map_wf(entries@),
{
    let n: usize = entries.len();
    let mut i: usize = 0;
    let mut prev_base: u64 = 0;
    // The greatest end of any usable or bootloader-reclaimable entry of
    // non-zero length seen so far; in 128 bits so that base + length cannot
    // wrap.
    let mut watermark: u128 = 0;
    while i < n
        invariant
            i <= n,
            n == entries@.len(),
            i > 0 ==> prev_base == entries@[i - 1].base,
            forall|p: int, q: int| 0 <= p <= q < i ==> entries@[p].base <= entries@[q].base,
            forall|p: int|
                0 <= p < i && aligned_class(#[trigger] entries@[p].entry_type) ==> entries@[p].base
                    % PAGE_SIZE == 0 && entries@[p].length % PAGE_SIZE == 0,
            forall|p: int, q: int|
                0 <= p < q < i && aligned_class(entries@[p].entry_type) && aligned_class(
                    entries@[q].entry_type,
                ) ==> !ranges_overlap(entries@[p], entries@[q]),
            forall|p: int|
                0 <= p < i && aligned_class(#[trigger] entries@[p].entry_type) && entries@[p].length
                    > 0 ==> entry_end(entries@[p]) <= watermark as int,
            watermark == 0 || exists|p: int|
                0 <= p < i && aligned_class(#[trigger] entries@[p].entry_type) && entries@[p].length
                    > 0 && entry_end(entries@[p]) == watermark as int,
        decreases n - i,
    {
        let e: Entry = entries[i];
        if i > 0 && e.base < prev_base {
            proof {
                assert(entries@[i - 1].base > entries@[i as int].base);
                assert(!entries_sorted(entries@));
            }
            return false;
        }
        let special: bool = e.entry_type == EntryType::Usable || e.entry_type
            == EntryType::BootloaderReclaimable;
        if special {
            if e.base % PAGE_SIZE != 0 || e.length % PAGE_SIZE != 0 {
                proof {
                    assert(aligned_class(entries@[i as int].entry_type));
                    assert(!entries_aligned(entries@));
                }
                return false;
            }
            if e.length > 0 {
                let base_wide: u128 = e.base as u128;
                if base_wide < watermark {
                    proof {
                        let p = choose|p: int|
                            0 <= p < i && aligned_class(#[trigger] entries@[p].entry_type)
                                && entries@[p].length > 0 && entry_end(entries@[p])
                                == watermark as int;
                        assert(entries@[p].base <= entries@[i as int].base);
                        assert(ranges_overlap(entries@[p], entries@[i as int]));
                        assert(!entries_disjoint(entries@));
                    }
                    return false;
                }
                watermark = base_wide + (e.length as u128);
            }
        }
        proof {
            let s = entries@;
            let ii = i as int;
            assert forall|p: int, q: int| 0 <= p <= q < i + 1 implies s[p].base <= s[q].base by {
                if q == ii && p < ii {
                    assert(s[p].base <= s[ii - 1].base);
                }
            }
            assert forall|p: int, q: int|
                0 <= p < q < i + 1 && aligned_class(s[p].entry_type) && aligned_class(
                    s[q].entry_type,
                ) implies !ranges_overlap(s[p], s[q]) by {
                if q == ii {
                    if s[p].length > 0 && s[ii].length > 0 {
                        assert(entry_end(s[p]) <= s[ii].base);
                        assert(s[p].base <= s[ii].base);
                    }
                }
            }
        }
        prev_base = e.base;
        i = i + 1;
    }
    true
}

} // verus!
