//! The requests the executable places for the bootloader.
//!
//! Every request opens with four identifying words: two common words shared
//! by the whole protocol family, then two words unique to the feature. The
//! bootloader scans for these words (or for a dedicated section of pointers
//! to the requests), so they are part of the wire contract: constructors
//! emit them exactly, and no setter touches them. After the words come the
//! requested revision, the response slot, and the feature's own
//! configuration fields.

use vstd::prelude::*;
use crate::modules::InternalModule;
use crate::mp;
use crate::paging::Mode;
use crate::response::{BootloaderInfoResponse, DateAtBootResponse, DeviceTreeBlobResponse,
    EfiMemoryMapResponse, EfiSystemTableResponse, EntryPointResponse, ExecutableAddressResponse,
    ExecutableFileResponse, FirmwareTypeResponse, FramebufferResponse, HhdmResponse,
    MemoryMapResponse, ModuleResponse, MpResponse, PagingModeResponse, RsdpResponse,
    SmbiosResponse, StackSizeResponse};

verus! {

/// The first common word every request starts with.
pub const COMMON_MAGIC_0: u64 = 0xc7b1dd30df4c8b88;

/// The second common word every request starts with.
pub const COMMON_MAGIC_1: u64 = 0x0a82e883a194f07b;

/// The four identifying words of a request whose feature words are `m2` and
/// `m3`: the two common words, then the feature words, in order.
pub open spec fn request_id(m2: u64, m3: u64) -> Seq<u64> {
    seq![COMMON_MAGIC_0, COMMON_MAGIC_1, m2, m3]
}

/// Build a request's identifying words.
fn make_id(m2: u64, m3: u64) -> (r: [u64; 4])
    ensures
        r@ == request_id(m2, m3),
{
    let r: [u64; 4] = [COMMON_MAGIC_0, COMMON_MAGIC_1, m2, m3];
    proof {
        assert(r@ =~= request_id(m2, m3));
    }
    r
}

/// A request's response slot: the one cell of the request the bootloader
/// writes.
///
/// The slot starts empty and is written at most once, by the bootloader,
/// between program load and the executable's first instruction; the
/// executable only reads it. Because that write happens in a foreign
/// execution context, the real slot is read with a volatile load the
/// compiler may not cache or reorder; this model makes the foreign write an
/// explicit operation, [`Response::publish`], and gives every read an exact
/// contract over what was published.
pub struct Response<T> {
    inner: Option<T>,
}

impl<T> Response<T> {
    /// The published response, if any.
    pub closed spec fn spec_get(&self) -> Option<T> {
        self.inner
    }

    /// An empty slot: no response published.
    pub fn none() -> (r: Self)
        ensures
            r.spec_get() is None,
    {
        Response { inner: None }
    }

    /// Read the slot: the published response in full, or nothing. A slot
    /// that was never written stays empty forever; the protocol offers no
    /// way to tell "unsupported" from "not honored".
    pub fn get(&self) -> (r: Option<&T>)
        ensures
            match r {
                Option::Some(v) => self.spec_get() == Option::Some(*v),
                Option::None => self.spec_get() is None,
            },
    {
        match &self.inner {
            Some(v) => Some(v),
            None => None,
        }
    }

    /// Borrow the published response mutably, for the fields the protocol
    /// designates as executable-owned after handoff. Taking `&mut self`
    /// stands for the exclusive access the caller must hold.
    pub fn get_mut(&mut self) -> (r: &mut T)
        requires
            old(self).spec_get() is Some,
        ensures
            old(self).spec_get() == Option::Some(*r),
            final(self).spec_get() == Option::Some(*final(r)),
    {
        match &mut self.inner {
            Some(v) => v,
            None => {
                proof {
                    assert(false);
                }
                vstd::pervasive::unreached()
            },
        }
    }

    /// Model the bootloader publishing its response before handoff: the
    /// slot's single foreign write.
    pub fn publish(&mut self, value: T)
        requires
            old(self).spec_get() is None,
        ensures
            final(self).spec_get() == Option::Some(value),
    {
        self.inner = Some(value);
    }
}

/// First word of the marker that opens the requests section.
pub const REQUESTS_START_MARKER_0: u64 = 0xf6b8f4b39de7d1ae;

/// Second word of the marker that opens the requests section.
pub const REQUESTS_START_MARKER_1: u64 = 0xfab91a6940fcb9cf;

/// Third word of the marker that opens the requests section.
pub const REQUESTS_START_MARKER_2: u64 = 0x785c6ed015d3e316;

/// Fourth word of the marker that opens the requests section.
pub const REQUESTS_START_MARKER_3: u64 = 0x181e920a7852b9d9;

/// First word of the marker that closes the requests section.
pub const REQUESTS_END_MARKER_0: u64 = 0xadc0e0531bb10d03;

/// Second word of the marker that closes the requests section.
pub const REQUESTS_END_MARKER_1: u64 = 0x9572709f31764c62;

/// Marks the beginning of the requests section.
pub struct RequestsStartMarker {
    /// The four identifying words of the marker.
    pub id: [u64; 4],
}

impl RequestsStartMarker {
    /// Create a start marker.
    pub fn new() -> (r: Self)
        ensures
            r.id@ == seq![
                REQUESTS_START_MARKER_0,
                REQUESTS_START_MARKER_1,
                REQUESTS_START_MARKER_2,
                REQUESTS_START_MARKER_3,
            ],
    {
        let id: [u64; 4] = [
            REQUESTS_START_MARKER_0,
            REQUESTS_START_MARKER_1,
            REQUESTS_START_MARKER_2,
            REQUESTS_START_MARKER_3,
        ];
        proof {
            assert(id@ =~= seq![
                REQUESTS_START_MARKER_0,
                REQUESTS_START_MARKER_1,
                REQUESTS_START_MARKER_2,
                REQUESTS_START_MARKER_3,
            ]);
        }
        RequestsStartMarker { id }
    }
}

/// Marks the end of the requests section.
pub struct RequestsEndMarker {
    /// The two identifying words of the marker.
    pub id: [u64; 2],
}

impl RequestsEndMarker {
    /// Create an end marker.
    pub fn new() -> (r: Self)
        ensures
            r.id@ == seq![REQUESTS_END_MARKER_0, REQUESTS_END_MARKER_1],
    {
        let id: [u64; 2] = [REQUESTS_END_MARKER_0, REQUESTS_END_MARKER_1];
        proof {
            assert(id@ =~= seq![REQUESTS_END_MARKER_0, REQUESTS_END_MARKER_1]);
        }
        RequestsEndMarker { id }
    }
}

/// Third identifying word of the stack-size request.
pub const STACK_SIZE_MAGIC_2: u64 = 0x224ef0460a8e8926;

/// Fourth identifying word of the stack-size request.
pub const STACK_SIZE_MAGIC_3: u64 = 0xe1cb0fc25f46ea3d;

/// Request a differently-sized stack.
pub struct StackSizeRequest {
    /// The four identifying words.
    pub id: [u64; 4],
    /// The requested revision of this feature.
    pub revision: u64,
    /// The response slot.
    pub response: Response<StackSizeResponse>,
    /// The requested stack size, in bytes.
    pub size: u64,
}

impl StackSizeRequest {
    /// Create a request with the latest revision of this feature.
    pub fn new() -> (r: Self)
        ensures
            r.id@ == request_id(STACK_SIZE_MAGIC_2, STACK_SIZE_MAGIC_3),
            r.revision == 0,
            r.response.spec_get() is None,
            r.size == 0,
    {
        Self::with_revision(0)
    }

    /// Create a request with the given revision.
    pub fn with_revision(revision: u64) -> (r: Self)
        ensures
            r.id@ == request_id(STACK_SIZE_MAGIC_2, STACK_SIZE_MAGIC_3),
            r.revision == revision,
            r.response.spec_get() is None,
            r.size == 0,
    {
        StackSizeRequest {
            id: make_id(STACK_SIZE_MAGIC_2, STACK_SIZE_MAGIC_3),
            revision,
            response: Response::none(),
            size: 0,
        }
    }

    /// The identifying words of this request: the common magic and the
    /// feature-specific words.
    pub fn id(&self) -> (r: &[u64; 4])
        ensures
            r@ == self.id@,
    {
        &self.id
    }

    /// The requested revision of this feature.
    pub fn revision(&self) -> (r: u64)
        ensures
            r == self.revision,
    {
        self.revision
    }

    /// The response, if the bootloader published one.
    pub fn get_response(&self) -> (r: Option<&StackSizeResponse>)
        ensures
            match r {
                Option::Some(v) => self.response.spec_get() == Option::Some(*v),
                Option::None => self.response.spec_get() is None,
            },
    {
        self.response.get()
    }

    /// Set the requested stack size, in bytes. Operates in place.
    pub fn set_size(&mut self, size: u64)
        ensures
            (*final(self) == StackSizeRequest { size, ..*old(self) }),
    {
        self.size = size;
    }

    /// Set the requested stack size, in bytes. Returns the new value.
    pub fn with_size(self, size: u64) -> (r: Self)
        ensures
            (r == StackSizeRequest { size, ..self }),
    {
        StackSizeRequest { size, ..self }
    }

    /// The requested stack size, in bytes.
    pub fn size(&self) -> (r: u64)
        ensures
            r == self.size,
    {
        self.size
    }
}

/// Third identifying word of the paging-mode request.
pub const PAGING_MODE_MAGIC_2: u64 = 0x95c1a0edab0944cb;

/// Fourth identifying word of the paging-mode request.
pub const PAGING_MODE_MAGIC_3: u64 = 0xa4e5cb3842f7488a;

/// Request certain platform-dependent paging modes.
///
/// Revision 0 carried only the requested mode; revision 1 added the maximum
/// and minimum acceptable modes.
pub struct PagingModeRequest {
    /// The four identifying words.
    pub id: [u64; 4],
    /// The requested revision of this feature.
    pub revision: u64,
    /// The response slot.
    pub response: Response<PagingModeResponse>,
    /// The requested paging mode.
    pub mode: Mode,
    /// The deepest acceptable paging mode.
    pub max_mode: Mode,
    /// The shallowest acceptable paging mode.
    pub min_mode: Mode,
}

impl PagingModeRequest {
    /// Create a request with the latest revision of this feature.
    pub fn new() -> (r: Self)
        ensures
            r.id@ == request_id(PAGING_MODE_MAGIC_2, PAGING_MODE_MAGIC_3),
            r.revision == 1,
            r.response.spec_get() is None,
            r.mode == Mode::FourLevel,
            r.max_mode == Mode::FourLevel,
            r.min_mode == Mode::FourLevel,
    {
        Self::with_revision(1)
    }

    /// Create a request with the given revision.
    pub fn with_revision(revision: u64) -> (r: Self)
        ensures
            r.id@ == request_id(PAGING_MODE_MAGIC_2, PAGING_MODE_MAGIC_3),
            r.revision == revision,
            r.response.spec_get() is None,
            r.mode == Mode::FourLevel,
            r.max_mode == Mode::FourLevel,
            r.min_mode == Mode::FourLevel,
    {
        PagingModeRequest {
            id: make_id(PAGING_MODE_MAGIC_2, PAGING_MODE_MAGIC_3),
            revision,
            response: Response::none(),
            mode: Mode::default_mode(),
            max_mode: Mode::default_mode(),
            min_mode: Mode::min_mode(),
        }
    }

    /// The identifying words of this request: the common magic and the
    /// feature-specific words.
    pub fn id(&self) -> (r: &[u64; 4])
        ensures
            r@ == self.id@,
    {
        &self.id
    }

    /// The requested revision of this feature.
    pub fn revision(&self) -> (r: u64)
        ensures
            r == self.revision,
    {
        self.revision
    }

    /// The response, if the bootloader published one.
    pub fn get_response(&self) -> (r: Option<&PagingModeResponse>)
        ensures
            match r {
                Option::Some(v) => self.response.spec_get() == Option::Some(*v),
                Option::None => self.response.spec_get() is None,
            },
    {
        self.response.get()
    }

    /// Set the requested paging mode. Operates in place.
    pub fn set_mode(&mut self, mode: Mode)
        ensures
            (*final(self) == PagingModeRequest { mode, ..*old(self) }),
    {
        self.mode = mode;
    }

    /// Set the requested paging mode. Returns the new value.
    pub fn with_mode(self, mode: Mode) -> (r: Self)
        ensures
            (r == PagingModeRequest { mode, ..self }),
    {
        PagingModeRequest { mode, ..self }
    }

    /// Set the deepest acceptable paging mode. Operates in place.
    pub fn set_max_mode(&mut self, max_mode: Mode)
        ensures
            (*final(self) == PagingModeRequest { max_mode, ..*old(self) }),
    {
        self.max_mode = max_mode;
    }

    /// Set the deepest acceptable paging mode. Returns the new value.
    pub fn with_max_mode(self, max_mode: Mode) -> (r: Self)
        ensures
            (r == PagingModeRequest { max_mode, ..self }),
    {
        PagingModeRequest { max_mode, ..self }
    }

    /// Set the shallowest acceptable paging mode. Operates in place.
    pub fn set_min_mode(&mut self, min_mode: Mode)
        ensures
            (*final(self) == PagingModeRequest { min_mode, ..*old(self) }),
    {
        self.min_mode = min_mode;
    }

    /// Set the shallowest acceptable paging mode. Returns the new value.
    pub fn with_min_mode(self, min_mode: Mode) -> (r: Self)
        ensures
            (r == PagingModeRequest { min_mode, ..self }),
    {
        PagingModeRequest { min_mode, ..self }
    }

    /// The requested paging mode.
    pub fn mode(&self) -> (r: Mode)
        ensures
            r == self.mode,
    {
        self.mode
    }

    /// The deepest acceptable paging mode.
    pub fn max_mode(&self) -> (r: Mode)
        ensures
            r == self.max_mode,
    {
        self.max_mode
    }

    /// The shallowest acceptable paging mode.
    pub fn min_mode(&self) -> (r: Mode)
        ensures
            r == self.min_mode,
    {
        self.min_mode
    }
}

/// Setters of distinct fields commute: whatever order two of them are
/// applied in, the request they leave behind is the same. Stated over the
/// functional updates the setters' contracts promise.
pub proof fn lemma_paging_setters_commute(r: PagingModeRequest, mode: Mode, max_mode: Mode)
    ensures
        (PagingModeRequest { max_mode, ..PagingModeRequest { mode, ..r } } == PagingModeRequest {
            mode,
            ..PagingModeRequest { max_mode, ..r }
        }),
{
}

/// No setter touches the identifying words or the response slot: a request
/// built by any chain of the paging setters still opens with the common and
/// feature magic and still has an empty slot.
pub proof fn lemma_paging_setters_preserve_id(r: PagingModeRequest, mode: Mode)
    ensures
        (PagingModeRequest { mode, ..r }).id == r.id,
        (PagingModeRequest { mode, ..r }).response == r.response,
        (PagingModeRequest { mode, ..r }).revision == r.revision,
{
}


/// Third identifying word of the bootloader-info request.
pub const BOOTLOADER_INFO_MAGIC_2: u64 = 0xf55038d8e2a1202f;

/// Fourth identifying word of the bootloader-info request.
pub const BOOTLOADER_INFO_MAGIC_3: u64 = 0x279426fcf5f59740;

/// Request the name and version of the loading bootloader.
pub struct BootloaderInfoRequest {
    /// The four identifying words.
    pub id: [u64; 4],
    /// The requested revision of this feature.
    pub revision: u64,
    /// The response slot.
    pub response: Response<BootloaderInfoResponse>,
}

impl BootloaderInfoRequest {
    /// Create a request with the latest revision of this feature.
    pub fn new() -> (r: Self)
        ensures
            r.id@ == request_id(BOOTLOADER_INFO_MAGIC_2, BOOTLOADER_INFO_MAGIC_3),
            r.revision == 0,
            r.response.spec_get() is None,
    {
        Self::with_revision(0)
    }

    /// Create a request with the given revision.
    pub fn with_revision(revision: u64) -> (r: Self)
        ensures
            r.id@ == request_id(BOOTLOADER_INFO_MAGIC_2, BOOTLOADER_INFO_MAGIC_3),
            r.revision == revision,
            r.response.spec_get() is None,
    {
        BootloaderInfoRequest {
            id: make_id(BOOTLOADER_INFO_MAGIC_2, BOOTLOADER_INFO_MAGIC_3),
            revision,
            response: Response::none(),
        }
    }

    /// The identifying words of this request: the common magic and the
    /// feature-specific words.
    pub fn id(&self) -> (r: &[u64; 4])
        ensures
            r@ == self.id@,
    {
        &self.id
    }

    /// The requested revision of this feature.
    pub fn revision(&self) -> (r: u64)
        ensures
            r == self.revision,
    {
        self.revision
    }

    /// The response, if the bootloader published one.
    pub fn get_response(&self) -> (r: Option<&BootloaderInfoResponse>)
        ensures
            match r {
                Option::Some(v) => self.response.spec_get() == Option::Some(*v),
                Option::None => self.response.spec_get() is None,
            },
    {
        self.response.get()
    }
}

/// Third identifying word of the firmware-type request.
pub const FIRMWARE_TYPE_MAGIC_2: u64 = 0x8c2f75d90bef28a8;

/// Fourth identifying word of the firmware-type request.
pub const FIRMWARE_TYPE_MAGIC_3: u64 = 0x7045a4688eac00c3;

/// Request the type of the firmware.
pub struct FirmwareTypeRequest {
    /// The four identifying words.
    pub id: [u64; 4],
    /// The requested revision of this feature.
    pub revision: u64,
    /// The response slot.
    pub response: Response<FirmwareTypeResponse>,
}

impl FirmwareTypeRequest {
    /// Create a request with the latest revision of this feature.
    pub fn new() -> (r: Self)
        ensures
            r.id@ == request_id(FIRMWARE_TYPE_MAGIC_2, FIRMWARE_TYPE_MAGIC_3),
            r.revision == 0,
            r.response.spec_get() is None,
    {
        Self::with_revision(0)
    }

    /// Create a request with the given revision.
    pub fn with_revision(revision: u64) -> (r: Self)
        ensures
            r.id@ == request_id(FIRMWARE_TYPE_MAGIC_2, FIRMWARE_TYPE_MAGIC_3),
            r.revision == revision,
            r.response.spec_get() is None,
    {
        FirmwareTypeRequest {
            id: make_id(FIRMWARE_TYPE_MAGIC_2, FIRMWARE_TYPE_MAGIC_3),
            revision,
            response: Response::none(),
        }
    }

    /// The identifying words of this request: the common magic and the
    /// feature-specific words.
    pub fn id(&self) -> (r: &[u64; 4])
        ensures
            r@ == self.id@,
    {
        &self.id
    }

    /// The requested revision of this feature.
    pub fn revision(&self) -> (r: u64)
        ensures
            r == self.revision,
    {
        self.revision
    }

    /// The response, if the bootloader published one.
    pub fn get_response(&self) -> (r: Option<&FirmwareTypeResponse>)
        ensures
            match r {
                Option::Some(v) => self.response.spec_get() == Option::Some(*v),
                Option::None => self.response.spec_get() is None,
            },
    {
        self.response.get()
    }
}

/// Third identifying word of the hhdm request.
pub const HHDM_MAGIC_2: u64 = 0x48dcf1cb8ad2b852;

/// Fourth identifying word of the hhdm request.
pub const HHDM_MAGIC_3: u64 = 0x63984e959a98244b;

/// Request information about the higher-half direct mapping.
pub struct HhdmRequest {
    /// The four identifying words.
    pub id: [u64; 4],
    /// The requested revision of this feature.
    pub revision: u64,
    /// The response slot.
    pub response: Response<HhdmResponse>,
}

impl HhdmRequest {
    /// Create a request with the latest revision of this feature.
    pub fn new() -> (r: Self)
        ensures
            r.id@ == request_id(HHDM_MAGIC_2, HHDM_MAGIC_3),
            r.revision == 0,
            r.response.spec_get() is None,
    {
        Self::with_revision(0)
    }

    /// Create a request with the given revision.
    pub fn with_revision(revision: u64) -> (r: Self)
        ensures
            r.id@ == request_id(HHDM_MAGIC_2, HHDM_MAGIC_3),
            r.revision == revision,
            r.response.spec_get() is None,
    {
        HhdmRequest {
            id: make_id(HHDM_MAGIC_2, HHDM_MAGIC_3),
            revision,
            response: Response::none(),
        }
    }

    /// The identifying words of this request: the common magic and the
    /// feature-specific words.
    pub fn id(&self) -> (r: &[u64; 4])
        ensures
            r@ == self.id@,
    {
        &self.id
    }

    /// The requested revision of this feature.
    pub fn revision(&self) -> (r: u64)
        ensures
            r == self.revision,
    {
        self.revision
    }

    /// The response, if the bootloader published one.
    pub fn get_response(&self) -> (r: Option<&HhdmResponse>)
        ensures
            match r {
                Option::Some(v) => self.response.spec_get() == Option::Some(*v),
                Option::None => self.response.spec_get() is None,
            },
    {
        self.response.get()
    }
}

/// Third identifying word of the framebuffer request.
pub const FRAMEBUFFER_MAGIC_2: u64 = 0x9d5827dcd881dd75;

/// Fourth identifying word of the framebuffer request.
pub const FRAMEBUFFER_MAGIC_3: u64 = 0xa3148604f6fab11b;

/// Request a framebuffer for graphics output.
pub struct FramebufferRequest {
    /// The four identifying words.
    pub id: [u64; 4],
    /// The requested revision of this feature.
    pub revision: u64,
    /// The response slot.
    pub response: Response<FramebufferResponse>,
}

impl FramebufferRequest {
    /// Create a request with the latest revision of this feature.
    pub fn new() -> (r: Self)
        ensures
            r.id@ == request_id(FRAMEBUFFER_MAGIC_2, FRAMEBUFFER_MAGIC_3),
            r.revision == 0,
            r.response.spec_get() is None,
    {
        Self::with_revision(0)
    }

    /// Create a request with the given revision.
    pub fn with_revision(revision: u64) -> (r: Self)
        ensures
            r.id@ == request_id(FRAMEBUFFER_MAGIC_2, FRAMEBUFFER_MAGIC_3),
            r.revision == revision,
            r.response.spec_get() is None,
    {
        FramebufferRequest {
            id: make_id(FRAMEBUFFER_MAGIC_2, FRAMEBUFFER_MAGIC_3),
            revision,
            response: Response::none(),
        }
    }

    /// The identifying words of this request: the common magic and the
    /// feature-specific words.
    pub fn id(&self) -> (r: &[u64; 4])
        ensures
            r@ == self.id@,
    {
        &self.id
    }

    /// The requested revision of this feature.
    pub fn revision(&self) -> (r: u64)
        ensures
            r == self.revision,
    {
        self.revision
    }

    /// The response, if the bootloader published one.
    pub fn get_response(&self) -> (r: Option<&FramebufferResponse>)
        ensures
            match r {
                Option::Some(v) => self.response.spec_get() == Option::Some(*v),
                Option::None => self.response.spec_get() is None,
            },
    {
        self.response.get()
    }
}

/// Third identifying word of the memory-map request.
pub const MEMORY_MAP_MAGIC_2: u64 = 0x67cf3d9d378a806f;

/// Fourth identifying word of the memory-map request.
pub const MEMORY_MAP_MAGIC_3: u64 = 0xe304acdfc50c3c62;

/// Request the bootloader's physical memory map. Entries come in order of
/// base address; usable and bootloader-reclaimable regions never overlap
/// and are page-aligned.
pub struct MemoryMapRequest {
    /// The four identifying words.
    pub id: [u64; 4],
    /// The requested revision of this feature.
    pub revision: u64,
    /// The response slot.
    pub response: Response<MemoryMapResponse>,
}

impl MemoryMapRequest {
    /// Create a request with the latest revision of this feature.
    pub fn new() -> (r: Self)
        ensures
            r.id@ == request_id(MEMORY_MAP_MAGIC_2, MEMORY_MAP_MAGIC_3),
            r.revision == 0,
            r.response.spec_get() is None,
    {
        Self::with_revision(0)
    }

    /// Create a request with the given revision.
    pub fn with_revision(revision: u64) -> (r: Self)
        ensures
            r.id@ == request_id(MEMORY_MAP_MAGIC_2, MEMORY_MAP_MAGIC_3),
            r.revision == revision,
            r.response.spec_get() is None,
    {
        MemoryMapRequest {
            id: make_id(MEMORY_MAP_MAGIC_2, MEMORY_MAP_MAGIC_3),
            revision,
            response: Response::none(),
        }
    }

    /// The identifying words of this request: the common magic and the
    /// feature-specific words.
    pub fn id(&self) -> (r: &[u64; 4])
        ensures
            r@ == self.id@,
    {
        &self.id
    }

    /// The requested revision of this feature.
    pub fn revision(&self) -> (r: u64)
        ensures
            r == self.revision,
    {
        self.revision
    }

    /// The response, if the bootloader published one.
    pub fn get_response(&self) -> (r: Option<&MemoryMapResponse>)
        ensures
            match r {
                Option::Some(v) => self.response.spec_get() == Option::Some(*v),
                Option::None => self.response.spec_get() is None,
            },
    {
        self.response.get()
    }
}

/// Third identifying word of the kernel-file request.
pub const KERNEL_FILE_MAGIC_2: u64 = 0xad97e90e83f1ed67;

/// Fourth identifying word of the kernel-file request.
pub const KERNEL_FILE_MAGIC_3: u64 = 0x31eb5d1c5ff23b69;

/// Request information about the loaded executable's own file.
pub struct KernelFileRequest {
    /// The four identifying words.
    pub id: [u64; 4],
    /// The requested revision of this feature.
    pub revision: u64,
    /// The response slot.
    pub response: Response<ExecutableFileResponse>,
}

impl KernelFileRequest {
    /// Create a request with the latest revision of this feature.
    pub fn new() -> (r: Self)
        ensures
            r.id@ == request_id(KERNEL_FILE_MAGIC_2, KERNEL_FILE_MAGIC_3),
            r.revision == 0,
            r.response.spec_get() is None,
    {
        Self::with_revision(0)
    }

    /// Create a request with the given revision.
    pub fn with_revision(revision: u64) -> (r: Self)
        ensures
            r.id@ == request_id(KERNEL_FILE_MAGIC_2, KERNEL_FILE_MAGIC_3),
            r.revision == revision,
            r.response.spec_get() is None,
    {
        KernelFileRequest {
            id: make_id(KERNEL_FILE_MAGIC_2, KERNEL_FILE_MAGIC_3),
            revision,
            response: Response::none(),
        }
    }

    /// The identifying words of this request: the common magic and the
    /// feature-specific words.
    pub fn id(&self) -> (r: &[u64; 4])
        ensures
            r@ == self.id@,
    {
        &self.id
    }

    /// The requested revision of this feature.
    pub fn revision(&self) -> (r: u64)
        ensures
            r == self.revision,
    {
        self.revision
    }

    /// The response, if the bootloader published one.
    pub fn get_response(&self) -> (r: Option<&ExecutableFileResponse>)
        ensures
            match r {
                Option::Some(v) => self.response.spec_get() == Option::Some(*v),
                Option::None => self.response.spec_get() is None,
            },
    {
        self.response.get()
    }
}

/// Third identifying word of the rsdp request.
pub const RSDP_MAGIC_2: u64 = 0xc5e77b6b397e7b43;

/// Fourth identifying word of the rsdp request.
pub const RSDP_MAGIC_3: u64 = 0x27637845accdcf3c;

/// Request the address of the ACPI RSDP table.
pub struct RsdpRequest {
    /// The four identifying words.
    pub id: [u64; 4],
    /// The requested revision of this feature.
    pub revision: u64,
    /// The response slot.
    pub response: Response<RsdpResponse>,
}

impl RsdpRequest {
    /// Create a request with the latest revision of this feature.
    pub fn new() -> (r: Self)
        ensures
            r.id@ == request_id(RSDP_MAGIC_2, RSDP_MAGIC_3),
            r.revision == 0,
            r.response.spec_get() is None,
    {
        Self::with_revision(0)
    }

    /// Create a request with the given revision.
    pub fn with_revision(revision: u64) -> (r: Self)
        ensures
            r.id@ == request_id(RSDP_MAGIC_2, RSDP_MAGIC_3),
            r.revision == revision,
            r.response.spec_get() is None,
    {
        RsdpRequest {
            id: make_id(RSDP_MAGIC_2, RSDP_MAGIC_3),
            revision,
            response: Response::none(),
        }
    }

    /// The identifying words of this request: the common magic and the
    /// feature-specific words.
    pub fn id(&self) -> (r: &[u64; 4])
        ensures
            r@ == self.id@,
    {
        &self.id
    }

    /// The requested revision of this feature.
    pub fn revision(&self) -> (r: u64)
        ensures
            r == self.revision,
    {
        self.revision
    }

    /// The response, if the bootloader published one.
    pub fn get_response(&self) -> (r: Option<&RsdpResponse>)
        ensures
            match r {
                Option::Some(v) => self.response.spec_get() == Option::Some(*v),
                Option::None => self.response.spec_get() is None,
            },
    {
        self.response.get()
    }
}

/// Third identifying word of the smbios request.
pub const SMBIOS_MAGIC_2: u64 = 0x9e9046f11e095391;

/// Fourth identifying word of the smbios request.
pub const SMBIOS_MAGIC_3: u64 = 0xaa4a520fefbde5ee;

/// Request the addresses of the SMBIOS entry points.
pub struct SmbiosRequest {
    /// The four identifying words.
    pub id: [u64; 4],
    /// The requested revision of this feature.
    pub revision: u64,
    /// The response slot.
    pub response: Response<SmbiosResponse>,
}

impl SmbiosRequest {
    /// Create a request with the latest revision of this feature.
    pub fn new() -> (r: Self)
        ensures
            r.id@ == request_id(SMBIOS_MAGIC_2, SMBIOS_MAGIC_3),
            r.revision == 0,
            r.response.spec_get() is None,
    {
        Self::with_revision(0)
    }

    /// Create a request with the given revision.
    pub fn with_revision(revision: u64) -> (r: Self)
        ensures
            r.id@ == request_id(SMBIOS_MAGIC_2, SMBIOS_MAGIC_3),
            r.revision == revision,
            r.response.spec_get() is None,
    {
        SmbiosRequest {
            id: make_id(SMBIOS_MAGIC_2, SMBIOS_MAGIC_3),
            revision,
            response: Response::none(),
        }
    }

    /// The identifying words of this request: the common magic and the
    /// feature-specific words.
    pub fn id(&self) -> (r: &[u64; 4])
        ensures
            r@ == self.id@,
    {
        &self.id
    }

    /// The requested revision of this feature.
    pub fn revision(&self) -> (r: u64)
        ensures
            r == self.revision,
    {
        self.revision
    }

    /// The response, if the bootloader published one.
    pub fn get_response(&self) -> (r: Option<&SmbiosResponse>)
        ensures
            match r {
                Option::Some(v) => self.response.spec_get() == Option::Some(*v),
                Option::None => self.response.spec_get() is None,
            },
    {
        self.response.get()
    }
}

/// Third identifying word of the efi-system-table request.
pub const EFI_SYSTEM_TABLE_MAGIC_2: u64 = 0x5ceba5163eaaf6d6;

/// Fourth identifying word of the efi-system-table request.
pub const EFI_SYSTEM_TABLE_MAGIC_3: u64 = 0x0a6981610cf65fcc;

/// Request the address of the EFI system table.
pub struct EfiSystemTableRequest {
    /// The four identifying words.
    pub id: [u64; 4],
    /// The requested revision of this feature.
    pub revision: u64,
    /// The response slot.
    pub response: Response<EfiSystemTableResponse>,
}

impl EfiSystemTableRequest {
    /// Create a request with the latest revision of this feature.
    pub fn new() -> (r: Self)
        ensures
            r.id@ == request_id(EFI_SYSTEM_TABLE_MAGIC_2, EFI_SYSTEM_TABLE_MAGIC_3),
            r.revision == 0,
            r.response.spec_get() is None,
    {
        Self::with_revision(0)
    }

    /// Create a request with the given revision.
    pub fn with_revision(revision: u64) -> (r: Self)
        ensures
            r.id@ == request_id(EFI_SYSTEM_TABLE_MAGIC_2, EFI_SYSTEM_TABLE_MAGIC_3),
            r.revision == revision,
            r.response.spec_get() is None,
    {
        EfiSystemTableRequest {
            id: make_id(EFI_SYSTEM_TABLE_MAGIC_2, EFI_SYSTEM_TABLE_MAGIC_3),
            revision,
            response: Response::none(),
        }
    }

    /// The identifying words of this request: the common magic and the
    /// feature-specific words.
    pub fn id(&self) -> (r: &[u64; 4])
        ensures
            r@ == self.id@,
    {
        &self.id
    }

    /// The requested revision of this feature.
    pub fn revision(&self) -> (r: u64)
        ensures
            r == self.revision,
    {
        self.revision
    }

    /// The response, if the bootloader published one.
    pub fn get_response(&self) -> (r: Option<&EfiSystemTableResponse>)
        ensures
            match r {
                Option::Some(v) => self.response.spec_get() == Option::Some(*v),
                Option::None => self.response.spec_get() is None,
            },
    {
        self.response.get()
    }
}

/// Third identifying word of the efi-memory-map request.
pub const EFI_MEMORY_MAP_MAGIC_2: u64 = 0x7df62a431d6872d5;

/// Fourth identifying word of the efi-memory-map request.
pub const EFI_MEMORY_MAP_MAGIC_3: u64 = 0xa4fcdfb3e57306c8;

/// Request the address of the EFI memory map.
pub struct EfiMemoryMapRequest {
    /// The four identifying words.
    pub id: [u64; 4],
    /// The requested revision of this feature.
    pub revision: u64,
    /// The response slot.
    pub response: Response<EfiMemoryMapResponse>,
}

impl EfiMemoryMapRequest {
    /// Create a request with the latest revision of this feature.
    pub fn new() -> (r: Self)
        ensures
            r.id@ == request_id(EFI_MEMORY_MAP_MAGIC_2, EFI_MEMORY_MAP_MAGIC_3),
            r.revision == 0,
            r.response.spec_get() is None,
    {
        Self::with_revision(0)
    }

    /// Create a request with the given revision.
    pub fn with_revision(revision: u64) -> (r: Self)
        ensures
            r.id@ == request_id(EFI_MEMORY_MAP_MAGIC_2, EFI_MEMORY_MAP_MAGIC_3),
            r.revision == revision,
            r.response.spec_get() is None,
    {
        EfiMemoryMapRequest {
            id: make_id(EFI_MEMORY_MAP_MAGIC_2, EFI_MEMORY_MAP_MAGIC_3),
            revision,
            response: Response::none(),
        }
    }

    /// The identifying words of this request: the common magic and the
    /// feature-specific words.
    pub fn id(&self) -> (r: &[u64; 4])
        ensures
            r@ == self.id@,
    {
        &self.id
    }

    /// The requested revision of this feature.
    pub fn revision(&self) -> (r: u64)
        ensures
            r == self.revision,
    {
        self.revision
    }

    /// The response, if the bootloader published one.
    pub fn get_response(&self) -> (r: Option<&EfiMemoryMapResponse>)
        ensures
            match r {
                Option::Some(v) => self.response.spec_get() == Option::Some(*v),
                Option::None => self.response.spec_get() is None,
            },
    {
        self.response.get()
    }
}

/// Third identifying word of the boot-time request.
pub const BOOT_TIME_MAGIC_2: u64 = 0x502746e184c088aa;

/// Fourth identifying word of the boot-time request.
pub const BOOT_TIME_MAGIC_3: u64 = 0xfbc5ec83e6327893;

/// Request the date at boot, as read from the system RTC.
pub struct BootTimeRequest {
    /// The four identifying words.
    pub id: [u64; 4],
    /// The requested revision of this feature.
    pub revision: u64,
    /// The response slot.
    pub response: Response<DateAtBootResponse>,
}

impl BootTimeRequest {
    /// Create a request with the latest revision of this feature.
    pub fn new() -> (r: Self)
        ensures
            r.id@ == request_id(BOOT_TIME_MAGIC_2, BOOT_TIME_MAGIC_3),
            r.revision == 0,
            r.response.spec_get() is None,
    {
        Self::with_revision(0)
    }

    /// Create a request with the given revision.
    pub fn with_revision(revision: u64) -> (r: Self)
        ensures
            r.id@ == request_id(BOOT_TIME_MAGIC_2, BOOT_TIME_MAGIC_3),
            r.revision == revision,
            r.response.spec_get() is None,
    {
        BootTimeRequest {
            id: make_id(BOOT_TIME_MAGIC_2, BOOT_TIME_MAGIC_3),
            revision,
            response: Response::none(),
        }
    }

    /// The identifying words of this request: the common magic and the
    /// feature-specific words.
    pub fn id(&self) -> (r: &[u64; 4])
        ensures
            r@ == self.id@,
    {
        &self.id
    }

    /// The requested revision of this feature.
    pub fn revision(&self) -> (r: u64)
        ensures
            r == self.revision,
    {
        self.revision
    }

    /// The response, if the bootloader published one.
    pub fn get_response(&self) -> (r: Option<&DateAtBootResponse>)
        ensures
            match r {
                Option::Some(v) => self.response.spec_get() == Option::Some(*v),
                Option::None => self.response.spec_get() is None,
            },
    {
        self.response.get()
    }
}

/// Third identifying word of the kernel-address request.
pub const KERNEL_ADDRESS_MAGIC_2: u64 = 0x71ba76863cc55f63;

/// Fourth identifying word of the kernel-address request.
pub const KERNEL_ADDRESS_MAGIC_3: u64 = 0xb2644a48c516a487;

/// Request the base address of the executable in virtual and physical
/// space.
pub struct KernelAddressRequest {
    /// The four identifying words.
    pub id: [u64; 4],
    /// The requested revision of this feature.
    pub revision: u64,
    /// The response slot.
    pub response: Response<ExecutableAddressResponse>,
}

impl KernelAddressRequest {
    /// Create a request with the latest revision of this feature.
    pub fn new() -> (r: Self)
        ensures
            r.id@ == request_id(KERNEL_ADDRESS_MAGIC_2, KERNEL_ADDRESS_MAGIC_3),
            r.revision == 0,
            r.response.spec_get() is None,
    {
        Self::with_revision(0)
    }

    /// Create a request with the given revision.
    pub fn with_revision(revision: u64) -> (r: Self)
        ensures
            r.id@ == request_id(KERNEL_ADDRESS_MAGIC_2, KERNEL_ADDRESS_MAGIC_3),
            r.revision == revision,
            r.response.spec_get() is None,
    {
        KernelAddressRequest {
            id: make_id(KERNEL_ADDRESS_MAGIC_2, KERNEL_ADDRESS_MAGIC_3),
            revision,
            response: Response::none(),
        }
    }

    /// The identifying words of this request: the common magic and the
    /// feature-specific words.
    pub fn id(&self) -> (r: &[u64; 4])
        ensures
            r@ == self.id@,
    {
        &self.id
    }

    /// The requested revision of this feature.
    pub fn revision(&self) -> (r: u64)
        ensures
            r == self.revision,
    {
        self.revision
    }

    /// The response, if the bootloader published one.
    pub fn get_response(&self) -> (r: Option<&ExecutableAddressResponse>)
        ensures
            match r {
                Option::Some(v) => self.response.spec_get() == Option::Some(*v),
                Option::None => self.response.spec_get() is None,
            },
    {
        self.response.get()
    }
}

/// Third identifying word of the device-tree-blob request.
pub const DEVICE_TREE_BLOB_MAGIC_2: u64 = 0xb40ddb48fb54bac7;

/// Fourth identifying word of the device-tree-blob request.
pub const DEVICE_TREE_BLOB_MAGIC_3: u64 = 0x545081493f81ffb7;

/// Request the address of the device-tree blob, if one is present.
pub struct DeviceTreeBlobRequest {
    /// The four identifying words.
    pub id: [u64; 4],
    /// The requested revision of this feature.
    pub revision: u64,
    /// The response slot.
    pub response: Response<DeviceTreeBlobResponse>,
}

impl DeviceTreeBlobRequest {
    /// Create a request with the latest revision of this feature.
    pub fn new() -> (r: Self)
        ensures
            r.id@ == request_id(DEVICE_TREE_BLOB_MAGIC_2, DEVICE_TREE_BLOB_MAGIC_3),
            r.revision == 0,
            r.response.spec_get() is None,
    {
        Self::with_revision(0)
    }

    /// Create a request with the given revision.
    pub fn with_revision(revision: u64) -> (r: Self)
        ensures
            r.id@ == request_id(DEVICE_TREE_BLOB_MAGIC_2, DEVICE_TREE_BLOB_MAGIC_3),
            r.revision == revision,
            r.response.spec_get() is None,
    {
        DeviceTreeBlobRequest {
            id: make_id(DEVICE_TREE_BLOB_MAGIC_2, DEVICE_TREE_BLOB_MAGIC_3),
            revision,
            response: Response::none(),
        }
    }

    /// The identifying words of this request: the common magic and the
    /// feature-specific words.
    pub fn id(&self) -> (r: &[u64; 4])
        ensures
            r@ == self.id@,
    {
        &self.id
    }

    /// The requested revision of this feature.
    pub fn revision(&self) -> (r: u64)
        ensures
            r == self.revision,
    {
        self.revision
    }

    /// The response, if the bootloader published one.
    pub fn get_response(&self) -> (r: Option<&DeviceTreeBlobResponse>)
        ensures
            match r {
                Option::Some(v) => self.response.spec_get() == Option::Some(*v),
                Option::None => self.response.spec_get() is None,
            },
    {
        self.response.get()
    }
}


/// Third identifying word of the smp request.
pub const SMP_MAGIC_2: u64 = 0x95a67b819a1b857e;

/// Fourth identifying word of the smp request.
pub const SMP_MAGIC_3: u64 = 0xa0b61b723b6a73e0;

/// Request the start of all other processors on the system, if they exist.
/// Without this request, non-boot processors are ignored.
pub struct SmpRequest {
    /// The four identifying words.
    pub id: [u64; 4],
    /// The requested revision of this feature.
    pub revision: u64,
    /// The response slot.
    pub response: Response<MpResponse>,
    /// The requested multiprocessor flags.
    pub flags: mp::RequestFlags,
}

impl SmpRequest {
    /// Create a request with the latest revision of this feature.
    pub fn new() -> (r: Self)
        ensures
            r.id@ == request_id(SMP_MAGIC_2, SMP_MAGIC_3),
            r.revision == 0,
            r.response.spec_get() is None,
            r.flags.bits == 0,
    {
        Self::with_revision(0)
    }

    /// Create a request with the given revision.
    pub fn with_revision(revision: u64) -> (r: Self)
        ensures
            r.id@ == request_id(SMP_MAGIC_2, SMP_MAGIC_3),
            r.revision == revision,
            r.response.spec_get() is None,
            r.flags.bits == 0,
    {
        SmpRequest {
            id: make_id(SMP_MAGIC_2, SMP_MAGIC_3),
            revision,
            response: Response::none(),
            flags: mp::RequestFlags::empty(),
        }
    }

    /// The identifying words of this request: the common magic and the
    /// feature-specific words.
    pub fn id(&self) -> (r: &[u64; 4])
        ensures
            r@ == self.id@,
    {
        &self.id
    }

    /// The requested revision of this feature.
    pub fn revision(&self) -> (r: u64)
        ensures
            r == self.revision,
    {
        self.revision
    }

    /// The response, if the bootloader published one.
    pub fn get_response(&self) -> (r: Option<&MpResponse>)
        ensures
            match r {
                Option::Some(v) => self.response.spec_get() == Option::Some(*v),
                Option::None => self.response.spec_get() is None,
            },
    {
        self.response.get()
    }

    /// Set the multiprocessor flags. Operates in place.
    pub fn set_flags(&mut self, flags: mp::RequestFlags)
        ensures
            (*final(self) == SmpRequest { flags, ..*old(self) }),
    {
        self.flags = flags;
    }

    /// Set the multiprocessor flags. Returns the new value.
    pub fn with_flags(self, flags: mp::RequestFlags) -> (r: Self)
        ensures
            (r == SmpRequest { flags, ..self }),
    {
        SmpRequest { flags, ..self }
    }

    /// The requested multiprocessor flags.
    pub fn flags(&self) -> (r: mp::RequestFlags)
        ensures
            r == self.flags,
    {
        self.flags
    }
}

/// Third identifying word of the entry-point request.
pub const ENTRY_POINT_MAGIC_2: u64 = 0x13d86c035a1cd3e1;

/// Fourth identifying word of the entry-point request.
pub const ENTRY_POINT_MAGIC_3: u64 = 0x2b0caa89d8f3026a;

/// Request that the bootloader use a specific function as the executable's
/// entry point instead of the one in the executable's headers.
///
/// The entry point travels as the function's address. A fresh request holds
/// the zero address, standing for the built-in stub the real binding
/// installs, a function that never returns; the function finally installed
/// must never return either.
pub struct EntryPointRequest {
    /// The four identifying words.
    pub id: [u64; 4],
    /// The requested revision of this feature.
    pub revision: u64,
    /// The response slot.
    pub response: Response<EntryPointResponse>,
    /// The address of the requested entry point.
    pub entry_point: u64,
}

impl EntryPointRequest {
    /// Create a request with the latest revision of this feature.
    pub fn new() -> (r: Self)
        ensures
            r.id@ == request_id(ENTRY_POINT_MAGIC_2, ENTRY_POINT_MAGIC_3),
            r.revision == 0,
            r.response.spec_get() is None,
            r.entry_point == 0,
    {
        Self::with_revision(0)
    }

    /// Create a request with the given revision.
    pub fn with_revision(revision: u64) -> (r: Self)
        ensures
            r.id@ == request_id(ENTRY_POINT_MAGIC_2, ENTRY_POINT_MAGIC_3),
            r.revision == revision,
            r.response.spec_get() is None,
            r.entry_point == 0,
    {
        EntryPointRequest {
            id: make_id(ENTRY_POINT_MAGIC_2, ENTRY_POINT_MAGIC_3),
            revision,
            response: Response::none(),
            entry_point: 0,
        }
    }

    /// The identifying words of this request: the common magic and the
    /// feature-specific words.
    pub fn id(&self) -> (r: &[u64; 4])
        ensures
            r@ == self.id@,
    {
        &self.id
    }

    /// The requested revision of this feature.
    pub fn revision(&self) -> (r: u64)
        ensures
            r == self.revision,
    {
        self.revision
    }

    /// The response, if the bootloader published one.
    pub fn get_response(&self) -> (r: Option<&EntryPointResponse>)
        ensures
            match r {
                Option::Some(v) => self.response.spec_get() == Option::Some(*v),
                Option::None => self.response.spec_get() is None,
            },
    {
        self.response.get()
    }

    /// Set the entry point's address. The function must never return.
    /// Operates in place.
    pub fn set_entry_point(&mut self, entry_point: u64)
        ensures
            (*final(self) == EntryPointRequest { entry_point, ..*old(self) }),
    {
        self.entry_point = entry_point;
    }

    /// Set the entry point's address. The function must never return.
    /// Returns the new value.
    pub fn with_entry_point(self, entry_point: u64) -> (r: Self)
        ensures
            (r == EntryPointRequest { entry_point, ..self }),
    {
        EntryPointRequest { entry_point, ..self }
    }

    /// The address of the requested entry point.
    pub fn entry_point(&self) -> (r: u64)
        ensures
            r == self.entry_point,
    {
        self.entry_point
    }
}

/// Third identifying word of the module request.
pub const MODULE_MAGIC_2: u64 = 0x3e7e279702be32af;

/// Fourth identifying word of the module request.
pub const MODULE_MAGIC_3: u64 = 0xca1c4f3bd1280cee;

/// Request information about the loaded modules.
///
/// With revision 1 and greater the request may also name internal modules
/// for the bootloader to load beyond those in its configuration file.
pub struct ModuleRequest {
    /// The four identifying words.
    pub id: [u64; 4],
    /// The requested revision of this feature.
    pub revision: u64,
    /// The response slot.
    pub response: Response<ModuleResponse>,
    /// The internal modules to load, honored on revision 1 and greater. The
    /// real request carries them as a counted run of pointers.
    pub internal_modules: Vec<InternalModule>,
}

impl ModuleRequest {
    /// Create a request with the latest revision of this feature.
    pub fn new() -> (r: Self)
        ensures
            r.id@ == request_id(MODULE_MAGIC_2, MODULE_MAGIC_3),
            r.revision == 1,
            r.response.spec_get() is None,
            r.internal_modules@ == Seq::<InternalModule>::empty(),
    {
        Self::with_revision(1)
    }

    /// Create a request with the given revision.
    pub fn with_revision(revision: u64) -> (r: Self)
        ensures
            r.id@ == request_id(MODULE_MAGIC_2, MODULE_MAGIC_3),
            r.revision == revision,
            r.response.spec_get() is None,
            r.internal_modules@ == Seq::<InternalModule>::empty(),
    {
        ModuleRequest {
            id: make_id(MODULE_MAGIC_2, MODULE_MAGIC_3),
            revision,
            response: Response::none(),
            internal_modules: Vec::new(),
        }
    }

    /// The identifying words of this request: the common magic and the
    /// feature-specific words.
    pub fn id(&self) -> (r: &[u64; 4])
        ensures
            r@ == self.id@,
    {
        &self.id
    }

    /// The requested revision of this feature.
    pub fn revision(&self) -> (r: u64)
        ensures
            r == self.revision,
    {
        self.revision
    }

    /// The response, if the bootloader published one.
    pub fn get_response(&self) -> (r: Option<&ModuleResponse>)
        ensures
            match r {
                Option::Some(v) => self.response.spec_get() == Option::Some(*v),
                Option::None => self.response.spec_get() is None,
            },
    {
        self.response.get()
    }

    /// Set the internal modules to load, honored on revision 1 and greater.
    /// Operates in place.
    pub fn set_internal_modules(&mut self, internal_modules: Vec<InternalModule>)
        ensures
            (*final(self) == ModuleRequest { internal_modules, ..*old(self) }),
    {
        self.internal_modules = internal_modules;
    }

    /// Set the internal modules to load, honored on revision 1 and greater.
    /// Returns the new value.
    pub fn with_internal_modules(self, internal_modules: Vec<InternalModule>) -> (r: Self)
        ensures
            (r == ModuleRequest { internal_modules, ..self }),
    {
        ModuleRequest { internal_modules, ..self }
    }

    /// The internal modules to load.
    pub fn internal_modules(&self) -> (r: &Vec<InternalModule>)
        ensures
            r@ == self.internal_modules@,
    {
        &self.internal_modules
    }
}

} // verus!
