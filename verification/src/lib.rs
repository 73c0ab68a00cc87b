//! A verified model of the limine boot protocol.
//!
//! The protocol is a one-shot handoff between a bootloader and the executable
//! it loads. The executable places fixed-layout *request* structures in its
//! image; before transferring control, the bootloader recognizes each request
//! by its magic words and writes a pointer to a *response* structure into the
//! request's response slot. After control transfer the executable reads the
//! responses through safe accessors.
//!
//! Memory that the bootloader writes — response slots, the base-revision cell,
//! the response structures themselves — is foreign to the executable: the
//! write happens in another execution context, before the first instruction
//! of the executable runs. This crate models that foreign memory explicitly.
//! Each cell the bootloader may write is an ordinary value with a `publish`
//! operation standing for the bootloader's single pre-handoff write, and every
//! read accessor carries a contract stating exactly which published value it
//! returns. Raw addresses are carried as plain `u64` values; a C string the
//! bootloader points at is carried as the bytes visible at that address; a
//! counted array is carried as its element run together with its count.

use vstd::prelude::*;

pub mod file;
pub mod firmware_type;
pub mod framebuffer;
pub mod memory_map;
pub mod modules;
pub mod mp;
pub mod paging;
pub mod ptr;
pub mod request;
pub mod response;

verus! {

/// First identifying word of the base-revision tag.
pub const BASE_REVISION_MAGIC_0: u64 = 0xf9562b2d5c95a6c8;
/// Second identifying word of the base-revision tag. The same word initially
/// fills the revision cell's neighbour and serves as the "untouched" sentinel
/// the accessors compare against.
pub const BASE_REVISION_MAGIC_1: u64 = 0x6a7b384944536bdc;
/// The highest base revision this crate knows about.
pub const LATEST_BASE_REVISION: u64 = 3;

/// A tag advertising the protocol base revision the executable expects.
///
/// The executable places one of these in its image. A bootloader that
/// understands the requested base revision writes `0` into the revision cell;
/// one that does not leaves the cell untouched, which the executable observes
/// as "fell back to revision 0".
pub struct BaseRevision {
    /// First identifying word, always [`BASE_REVISION_MAGIC_0`].
    pub id: u64,
    /// Second identifying word, always [`BASE_REVISION_MAGIC_1`] at
    /// construction.
    pub loaded: u64,
    /// The revision cell. Holds the requested revision until the bootloader
    /// overwrites it.
    pub revision: u64,
}

impl BaseRevision {
    /// The tag as `with_revision` builds it: magic words, then the requested
    /// revision in the cell.
    pub open spec fn spec_with_revision(revision: u64) -> BaseRevision {
        BaseRevision { id: BASE_REVISION_MAGIC_0, loaded: BASE_REVISION_MAGIC_1, revision }
    }

    /// What `is_supported` reads from the cell.
    pub open spec fn spec_is_supported(&self) -> bool {
        self.revision == 0
    }

    /// What `is_valid` reads from the cell.
    pub open spec fn spec_is_valid(&self) -> bool {
        self.revision != BASE_REVISION_MAGIC_1
    }

    /// What `loaded_revision` reads from the cell.
    pub open spec fn spec_loaded_revision(&self) -> Option<u64> {
        if self.revision == BASE_REVISION_MAGIC_1 {
            Option::None
        } else {
            Option::Some(self.revision)
        }
    }

    /// Create a tag requesting the latest base revision this crate knows.
    pub fn new() -> (r: Self)
        ensures
            r == Self::spec_with_revision(LATEST_BASE_REVISION),
    {
        Self::with_revision(LATEST_BASE_REVISION)
    }

    /// Create a tag requesting the given base revision.
    pub fn with_revision(revision: u64) -> (r: Self)
        ensures
            r == Self::spec_with_revision(revision),
    {
        Self { id: BASE_REVISION_MAGIC_0, loaded: BASE_REVISION_MAGIC_1, revision }
    }

    /// Model the bootloader overwriting the revision cell before handoff.
    pub fn publish_revision(&mut self, value: u64)
        ensures
            final(self).id == old(self).id,
            final(self).loaded == old(self).loaded,
            final(self).revision == value,
    {
        self.revision = value;
    }

    /// Whether the bootloader accepted the requested base revision: it did if
    /// and only if it zeroed the revision cell.
    pub fn is_supported(&self) -> (r: bool)
        ensures
            r == self.spec_is_supported(),
    {
        self.revision == 0
    }

    /// Whether the revision cell holds something other than the untouched
    /// sentinel.
    pub fn is_valid(&self) -> (r: bool)
        ensures
            r == self.spec_is_valid(),
    {
        self.revision != BASE_REVISION_MAGIC_1
    }

    /// The revision the bootloader loaded, unless the cell still holds the
    /// sentinel.
    pub fn loaded_revision(&self) -> (r: Option<u64>)
        ensures
            r == self.spec_loaded_revision(),
    {
        if self.revision == BASE_REVISION_MAGIC_1 {
            None
        } else {
            Some(self.revision)
        }
    }
}

/// The revision gate, end to end. A tag built with `with_revision(k)` whose
/// cell the bootloader never touched reads as supported exactly when `k` was
/// zero; one whose cell the bootloader overwrote with an echo `m` (never the
/// sentinel) reads the loaded revision back as exactly `m`.
pub proof fn lemma_revision_gate(k: u64, m: u64)
    ensures
        BaseRevision::spec_with_revision(k).spec_is_supported() <==> k == 0,
        m != BASE_REVISION_MAGIC_1 ==> (BaseRevision {
            revision: m,
            ..BaseRevision::spec_with_revision(k)
        }).spec_loaded_revision() == Option::Some(m),
        BaseRevision::spec_with_revision(k).spec_loaded_revision() == if k
            == BASE_REVISION_MAGIC_1 {
            Option::<u64>::None
        } else {
            Option::<u64>::Some(k)
        },
{
}

} // verus!
