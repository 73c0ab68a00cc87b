//! The responses the bootloader publishes.
//!
//! A response is owned by the bootloader: allocated and populated before
//! handoff, then immutable for the rest of execution except for the fields
//! the protocol designates as executable-owned. Each response opens with the
//! revision the bootloader actually honored; fields a later revision added
//! are read only when that revision was honored.

use vstd::prelude::*;
use crate::file::File;
use crate::firmware_type::FirmwareType;
use crate::framebuffer::{Framebuffer, RawFramebuffer};
use crate::memory_map::{Entry, check_memory_map, memory_map_wf};
use crate::mp;
use crate::paging::Mode;
use crate::ptr::{CStrPtr, CountedPtr, cstr_decoded};

verus! {

/// A response to a bootloader-info request.
pub struct BootloaderInfoResponse {
    /// The revision of this response.
    pub revision: u64,
    /// The bootloader's name, as the zero-terminated string the response
    /// points at.
    pub name: CStrPtr,
    /// The bootloader's version, as the zero-terminated string the response
    /// points at.
    pub version: CStrPtr,
}

impl BootloaderInfoResponse {
    /// What the protocol guarantees of this response: its strings are
    /// terminated.
    pub open spec fn wf(&self) -> bool {
        self.name.wf() && self.version.wf()
    }

    /// The revision of this response.
    pub fn revision(&self) -> (r: u64)
        ensures
            r == self.revision,
    {
        self.revision
    }

    /// The name of the loading bootloader.
    pub fn name(&self) -> (r: Vec<u8>)
        requires
            self.wf(),
        ensures
            r@ == cstr_decoded(self.name@),
    {
        self.name.to_bytes()
    }

    /// The version of the loading bootloader.
    pub fn version(&self) -> (r: Vec<u8>)
        requires
            self.wf(),
        ensures
            r@ == cstr_decoded(self.version@),
    {
        self.version.to_bytes()
    }
}

/// A response to a firmware-type request.
pub struct FirmwareTypeResponse {
    /// The revision of this response.
    pub revision: u64,
    /// The firmware type.
    pub firmware_type: FirmwareType,
}

impl FirmwareTypeResponse {
    /// The revision of this response.
    pub fn revision(&self) -> (r: u64)
        ensures
            r == self.revision,
    {
        self.revision
    }

    /// The firmware type.
    pub fn firmware_type(&self) -> (r: FirmwareType)
        ensures
            r == self.firmware_type,
    {
        self.firmware_type
    }
}

/// A response to a stack-size request. It has no fields beyond the
/// revision: its presence alone says the bootloader complied.
pub struct StackSizeResponse {
    /// The revision of this response.
    pub revision: u64,
}

impl StackSizeResponse {
    /// The revision of this response.
    pub fn revision(&self) -> (r: u64)
        ensures
            r == self.revision,
    {
        self.revision
    }
}

/// A response to a higher-half direct-map request.
pub struct HhdmResponse {
    /// The revision of this response.
    pub revision: u64,
    /// The offset of the higher-half direct map.
    pub offset: u64,
}

impl HhdmResponse {
    /// The revision of this response.
    pub fn revision(&self) -> (r: u64)
        ensures
            r == self.revision,
    {
        self.revision
    }

    /// The offset of the higher-half direct map: adding it to a physical
    /// address yields that address's virtual alias while the bootloader's
    /// page tables remain in use.
    pub fn offset(&self) -> (r: u64)
        ensures
            r == self.offset,
    {
        self.offset
    }
}

/// A response to a framebuffer request.
pub struct FramebufferResponse {
    /// The revision of this response.
    pub revision: u64,
    /// The published framebuffers.
    pub framebuffers: CountedPtr<RawFramebuffer>,
}

impl FramebufferResponse {
    /// What the protocol guarantees of this response: its counted run is
    /// well-formed.
    pub open spec fn wf(&self) -> bool {
        self.framebuffers.wf()
    }

    /// The revision of this response.
    pub fn revision(&self) -> (r: u64)
        ensures
            r == self.revision,
    {
        self.revision
    }

    /// How many framebuffers were published.
    pub fn framebuffer_count(&self) -> (r: u64)
        ensures
            r == self.framebuffers.spec_count(),
    {
        self.framebuffers.len()
    }

    /// The framebuffer at `i`, paired with this response's revision so that
    /// revision-gated fields are read safely.
    pub fn framebuffer_at(&self, i: usize) -> (r: Framebuffer<'_>)
        requires
            self.wf(),
            (i as int) < self.framebuffers.spec_count() as int,
        ensures
            r.revision == self.revision,
            *r.raw == self.framebuffers@[i as int],
    {
        Framebuffer::new(self.revision, self.framebuffers.get(i))
    }
}

/// A response to a paging-mode request.
pub struct PagingModeResponse {
    /// The revision of this response.
    pub revision: u64,
    /// The paging mode the bootloader enabled.
    pub mode: Mode,
}

impl PagingModeResponse {
    /// The revision of this response.
    pub fn revision(&self) -> (r: u64)
        ensures
            r == self.revision,
    {
        self.revision
    }

    /// The paging mode the bootloader enabled.
    pub fn mode(&self) -> (r: Mode)
        ensures
            r == self.mode,
    {
        self.mode
    }
}

/// A response to an MP request: the boot processor and every other
/// processor the bootloader found (x86_64 form).
pub struct MpResponse {
    /// The revision of this response.
    pub revision: u64,
    /// The flags the bootloader enabled.
    pub flags: mp::ResponseFlags,
    /// The local APIC ID of the boot processor.
    pub bsp_lapic_id: u32,
    /// One descriptor per logical processor, the boot processor included.
    pub cpus: CountedPtr<mp::Cpu>,
}

impl MpResponse {
    /// What the protocol guarantees of this response: its counted run is
    /// well-formed.
    pub open spec fn wf(&self) -> bool {
        self.cpus.wf()
    }

    /// The revision of this response.
    pub fn revision(&self) -> (r: u64)
        ensures
            r == self.revision,
    {
        self.revision
    }

    /// The flags the bootloader enabled.
    pub fn flags(&self) -> (r: mp::ResponseFlags)
        ensures
            r == self.flags,
    {
        self.flags
    }

    /// The local APIC ID of the boot processor.
    pub fn bsp_lapic_id(&self) -> (r: u32)
        ensures
            r == self.bsp_lapic_id,
    {
        self.bsp_lapic_id
    }

    /// How many processors were found, the boot processor included.
    pub fn cpu_count(&self) -> (r: u64)
        ensures
            r == self.cpus.spec_count(),
    {
        self.cpus.len()
    }

    /// The descriptor of the processor at `i`.
    pub fn cpu_at(&self, i: usize) -> (r: &mp::Cpu)
        requires
            self.wf(),
            (i as int) < self.cpus.spec_count() as int,
        ensures
            *r == self.cpus@[i as int],
    {
        self.cpus.get(i)
    }

    /// The descriptor of the processor at `i`, mutably: the jump-target slot
    /// and the scratch field are executable-owned. Taking `&mut self` stands
    /// for the exclusive access the caller must hold.
    pub fn cpu_at_mut(&mut self, i: usize) -> (r: &mut mp::Cpu)
        requires
            old(self).wf(),
            (i as int) < old(self).cpus.spec_count() as int,
        ensures
            *r == old(self).cpus@[i as int],
            final(self).wf(),
            final(self).revision == old(self).revision,
            final(self).flags == old(self).flags,
            final(self).bsp_lapic_id == old(self).bsp_lapic_id,
            final(self).cpus.spec_count() == old(self).cpus.spec_count(),
            final(self).cpus@ == old(self).cpus@.update(i as int, *final(r)),
    {
        self.cpus.get_mut(i)
    }
}

/// A response to a memory-map request.
pub struct MemoryMapResponse {
    /// The revision of this response.
    pub revision: u64,
    /// The published entries, in non-decreasing order of base address.
    pub entries: CountedPtr<Entry>,
}

impl MemoryMapResponse {
    /// What the protocol guarantees of the run itself: it is well-formed.
    /// What it guarantees of the entries is [`memory_map_wf`].
    pub open spec fn wf(&self) -> bool {
        self.entries.wf()
    }

    /// The revision of this response.
    pub fn revision(&self) -> (r: u64)
        ensures
            r == self.revision,
    {
        self.revision
    }

    /// How many entries were published.
    pub fn entry_count(&self) -> (r: u64)
        ensures
            r == self.entries.spec_count(),
    {
        self.entries.len()
    }

    /// The entry at `i`.
    pub fn entry_at(&self, i: usize) -> (r: &Entry)
        requires
            self.wf(),
            (i as int) < self.entries.spec_count() as int,
        ensures
            *r == self.entries@[i as int],
    {
        self.entries.get(i)
    }

    /// The entry at `i`, mutably: the protocol lets the executable mark
    /// entries in place. Taking `&mut self` stands for the exclusive access
    /// the caller must hold.
    pub fn entry_at_mut(&mut self, i: usize) -> (r: &mut Entry)
        requires
            old(self).wf(),
            (i as int) < old(self).entries.spec_count() as int,
        ensures
            *r == old(self).entries@[i as int],
            final(self).wf(),
            final(self).revision == old(self).revision,
            final(self).entries.spec_count() == old(self).entries.spec_count(),
            final(self).entries@ == old(self).entries@.update(i as int, *final(r)),
    {
        self.entries.get_mut(i)
    }

    /// All published entries.
    pub fn entries(&self) -> (r: Vec<Entry>)
        requires
            self.wf(),
        ensures
            r@ == self.entries@,
    {
        self.entries.to_vec()
    }

    /// Whether the published entries keep everything the protocol promises
    /// of a memory map: sorted bases, and page-aligned, mutually disjoint
    /// usable and bootloader-reclaimable regions.
    pub fn check(&self) -> (r: bool)
        requires
            self.wf(),
        ensures
            r == memory_map_wf(self.entries@),
    {
        let entries = self.entries.to_vec();
        check_memory_map(&entries)
    }
}

/// A response to an entry-point request. It has no fields beyond the
/// revision: its presence says the bootloader used the requested entry
/// point.
pub struct EntryPointResponse {
    /// The revision of this response.
    pub revision: u64,
}

impl EntryPointResponse {
    /// The revision of this response.
    pub fn revision(&self) -> (r: u64)
        ensures
            r == self.revision,
    {
        self.revision
    }
}

/// A response to a kernel-file request: the loaded executable's own file.
pub struct ExecutableFileResponse {
    /// The revision of this response.
    pub revision: u64,
    /// The executable's file.
    pub file: File,
}

impl ExecutableFileResponse {
    /// What the protocol guarantees of this response: its file is
    /// well-formed.
    pub open spec fn wf(&self) -> bool {
        self.file.wf()
    }

    /// The revision of this response.
    pub fn revision(&self) -> (r: u64)
        ensures
            r == self.revision,
    {
        self.revision
    }

    /// The executable's file.
    pub fn file(&self) -> (r: &File)
        ensures
            *r == self.file,
    {
        &self.file
    }
}

/// A response to a module request.
pub struct ModuleResponse {
    /// The revision of this response.
    pub revision: u64,
    /// The loaded modules.
    pub modules: CountedPtr<File>,
}

impl ModuleResponse {
    /// What the protocol guarantees of this response: its counted run is
    /// well-formed.
    pub open spec fn wf(&self) -> bool {
        self.modules.wf()
    }

    /// The revision of this response.
    pub fn revision(&self) -> (r: u64)
        ensures
            r == self.revision,
    {
        self.revision
    }

    /// How many modules were loaded.
    pub fn module_count(&self) -> (r: u64)
        ensures
            r == self.modules.spec_count(),
    {
        self.modules.len()
    }

    /// The module at `i`.
    pub fn module_at(&self, i: usize) -> (r: &File)
        requires
            self.wf(),
            (i as int) < self.modules.spec_count() as int,
        ensures
            *r == self.modules@[i as int],
    {
        self.modules.get(i)
    }
}

/// A response to an RSDP request.
pub struct RsdpResponse {
    /// The revision of this response.
    pub revision: u64,
    /// The address of the ACPI RSDP table.
    pub address: u64,
}

impl RsdpResponse {
    /// The revision of this response.
    pub fn revision(&self) -> (r: u64)
        ensures
            r == self.revision,
    {
        self.revision
    }

    /// The address of the ACPI RSDP table.
    pub fn address(&self) -> (r: u64)
        ensures
            r == self.address,
    {
        self.address
    }
}

/// A response to an SMBIOS request. Zero stands for an entry point that
/// does not exist.
pub struct SmbiosResponse {
    /// The revision of this response.
    pub revision: u64,
    /// The address of the 32-bit entry point; zero when absent.
    pub entry_32: u64,
    /// The address of the 64-bit entry point; zero when absent.
    pub entry_64: u64,
}

impl SmbiosResponse {
    /// The revision of this response.
    pub fn revision(&self) -> (r: u64)
        ensures
            r == self.revision,
    {
        self.revision
    }

    /// The physical address of the SMBIOS 32-bit entry point, if it exists.
    pub fn entry_32(&self) -> (r: Option<u64>)
        ensures
            r == if self.entry_32 == 0 {
                Option::<u64>::None
            } else {
                Option::<u64>::Some(self.entry_32)
            },
    {
        if self.entry_32 == 0 {
            None
        } else {
            Some(self.entry_32)
        }
    }

    /// The physical address of the SMBIOS 64-bit entry point, if it exists.
    pub fn entry_64(&self) -> (r: Option<u64>)
        ensures
            r == if self.entry_64 == 0 {
                Option::<u64>::None
            } else {
                Option::<u64>::Some(self.entry_64)
            },
    {
        if self.entry_64 == 0 {
            None
        } else {
            Some(self.entry_64)
        }
    }
}

/// A response to an EFI system-table request.
pub struct EfiSystemTableResponse {
    /// The revision of this response.
    pub revision: u64,
    /// The address of the EFI system table.
    pub address: u64,
}

impl EfiSystemTableResponse {
    /// The revision of this response.
    pub fn revision(&self) -> (r: u64)
        ensures
            r == self.revision,
    {
        self.revision
    }

    /// The address of the EFI system table.
    pub fn address(&self) -> (r: u64)
        ensures
            r == self.address,
    {
        self.address
    }
}

/// A response to an EFI memory-map request.
pub struct EfiMemoryMapResponse {
    /// The revision of this response.
    pub revision: u64,
    /// The address of the EFI memory map.
    pub memmap: u64,
    /// The size of the EFI memory map, in bytes.
    pub memmap_size: u64,
    /// The size of one EFI memory-map descriptor, in bytes.
    pub desc_size: u64,
    /// The version of the EFI memory-map descriptors.
    pub desc_version: u32,
}

impl EfiMemoryMapResponse {
    /// The revision of this response.
    pub fn revision(&self) -> (r: u64)
        ensures
            r == self.revision,
    {
        self.revision
    }

    /// The address of the EFI memory map.
    pub fn memmap(&self) -> (r: u64)
        ensures
            r == self.memmap,
    {
        self.memmap
    }

    /// The size of the EFI memory map, in bytes.
    pub fn memmap_size(&self) -> (r: u64)
        ensures
            r == self.memmap_size,
    {
        self.memmap_size
    }

    /// The size of one EFI memory-map descriptor, in bytes.
    pub fn desc_size(&self) -> (r: u64)
        ensures
            r == self.desc_size,
    {
        self.desc_size
    }

    /// The version of the EFI memory-map descriptors.
    pub fn desc_version(&self) -> (r: u32)
        ensures
            r == self.desc_version,
    {
        self.desc_version
    }
}

/// A response to a boot-time request.
pub struct DateAtBootResponse {
    /// The revision of this response.
    pub revision: u64,
    /// The Unix timestamp read from the system RTC at boot, in seconds.
    pub timestamp: i64,
}

impl DateAtBootResponse {
    /// The revision of this response.
    pub fn revision(&self) -> (r: u64)
        ensures
            r == self.revision,
    {
        self.revision
    }

    /// The Unix timestamp read from the system RTC at boot, in seconds.
    pub fn timestamp(&self) -> (r: i64)
        ensures
            r == self.timestamp,
    {
        self.timestamp
    }
}

/// A response to a kernel-address request.
///
/// Subtracting `virtual_base` from a virtual address inside the executable
/// and adding `physical_base` yields the corresponding physical address.
pub struct ExecutableAddressResponse {
    /// The revision of this response.
    pub revision: u64,
    /// The base address of the executable in physical memory.
    pub physical_base: u64,
    /// The base address of the executable in virtual memory.
    pub virtual_base: u64,
}

impl ExecutableAddressResponse {
    /// The revision of this response.
    pub fn revision(&self) -> (r: u64)
        ensures
            r == self.revision,
    {
        self.revision
    }

    /// The base address of the executable in physical memory.
    pub fn physical_base(&self) -> (r: u64)
        ensures
            r == self.physical_base,
    {
        self.physical_base
    }

    /// The base address of the executable in virtual memory.
    pub fn virtual_base(&self) -> (r: u64)
        ensures
            r == self.virtual_base,
    {
        self.virtual_base
    }
}

/// A response carrying the executable's command line.
pub struct ExecutableCmdlineResponse {
    /// The revision of this response.
    pub revision: u64,
    /// The command line, as the zero-terminated string the response points
    /// at.
    pub cmdline: CStrPtr,
}

impl ExecutableCmdlineResponse {
    /// What the protocol guarantees of this response: its string is
    /// terminated.
    pub open spec fn wf(&self) -> bool {
        self.cmdline.wf()
    }

    /// The revision of this response.
    pub fn revision(&self) -> (r: u64)
        ensures
            r == self.revision,
    {
        self.revision
    }

    /// The executable's command line.
    pub fn cmdline(&self) -> (r: Vec<u8>)
        requires
            self.wf(),
        ensures
            r@ == cstr_decoded(self.cmdline@),
    {
        self.cmdline.to_bytes()
    }
}

/// A response to a device-tree-blob request.
pub struct DeviceTreeBlobResponse {
    /// The revision of this response.
    pub revision: u64,
    /// The address of the device-tree blob; zero when none is present.
    pub dtb_ptr: u64,
}

impl DeviceTreeBlobResponse {
    /// The revision of this response.
    pub fn revision(&self) -> (r: u64)
        ensures
            r == self.revision,
    {
        self.revision
    }

    /// The address of the device-tree blob.
    pub fn dtb_ptr(&self) -> (r: u64)
        ensures
            r == self.dtb_ptr,
    {
        self.dtb_ptr
    }
}

} // verus!
