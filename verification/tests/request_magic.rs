//! Every request opens with the two common words and its own two feature
//! words, exactly and in order, whatever configuration was set.

use limine::modules::InternalModule;
use limine::mp::RequestFlags;
use limine::paging::Mode;
use limine::request::{
    BootTimeRequest, BootloaderInfoRequest, DeviceTreeBlobRequest, EfiMemoryMapRequest,
    EfiSystemTableRequest, EntryPointRequest, FirmwareTypeRequest, FramebufferRequest,
    HhdmRequest, KernelAddressRequest, KernelFileRequest, MemoryMapRequest, ModuleRequest,
    PagingModeRequest, RequestsEndMarker, RequestsStartMarker, RsdpRequest, SmbiosRequest,
    SmpRequest, StackSizeRequest,
};

const C0: u64 = 0xc7b1dd30df4c8b88;
const C1: u64 = 0x0a82e883a194f07b;

#[test]
fn bootloader_info_request_id() {
    assert_eq!(BootloaderInfoRequest::new().id(), &[
        C0,
        C1,
        0xf55038d8e2a1202f,
        0x279426fcf5f59740,
    ]);
}

#[test]
fn firmware_type_request_id() {
    assert_eq!(FirmwareTypeRequest::new().id(), &[
        C0,
        C1,
        0x8c2f75d90bef28a8,
        0x7045a4688eac00c3,
    ]);
}

#[test]
fn stack_size_request_id() {
    assert_eq!(StackSizeRequest::new().id(), &[C0, C1, 0x224ef0460a8e8926, 0xe1cb0fc25f46ea3d]);
}

#[test]
fn hhdm_request_id() {
    assert_eq!(HhdmRequest::new().id(), &[C0, C1, 0x48dcf1cb8ad2b852, 0x63984e959a98244b]);
}

#[test]
fn framebuffer_request_id() {
    assert_eq!(FramebufferRequest::new().id(), &[C0, C1, 0x9d5827dcd881dd75, 0xa3148604f6fab11b]);
}

#[test]
fn paging_mode_request_id() {
    assert_eq!(PagingModeRequest::new().id(), &[C0, C1, 0x95c1a0edab0944cb, 0xa4e5cb3842f7488a]);
}

#[test]
fn smp_request_id() {
    assert_eq!(SmpRequest::new().id(), &[C0, C1, 0x95a67b819a1b857e, 0xa0b61b723b6a73e0]);
}

#[test]
fn memory_map_request_id() {
    assert_eq!(MemoryMapRequest::new().id(), &[C0, C1, 0x67cf3d9d378a806f, 0xe304acdfc50c3c62]);
}

#[test]
fn entry_point_request_id() {
    assert_eq!(EntryPointRequest::new().id(), &[C0, C1, 0x13d86c035a1cd3e1, 0x2b0caa89d8f3026a]);
}

#[test]
fn kernel_file_request_id() {
    assert_eq!(KernelFileRequest::new().id(), &[C0, C1, 0xad97e90e83f1ed67, 0x31eb5d1c5ff23b69]);
}

#[test]
fn module_request_id() {
    assert_eq!(ModuleRequest::new().id(), &[C0, C1, 0x3e7e279702be32af, 0xca1c4f3bd1280cee]);
}

#[test]
fn rsdp_request_id() {
    assert_eq!(RsdpRequest::new().id(), &[C0, C1, 0xc5e77b6b397e7b43, 0x27637845accdcf3c]);
}

#[test]
fn smbios_request_id() {
    assert_eq!(SmbiosRequest::new().id(), &[C0, C1, 0x9e9046f11e095391, 0xaa4a520fefbde5ee]);
}

#[test]
fn efi_system_table_request_id() {
    assert_eq!(EfiSystemTableRequest::new().id(), &[
        C0,
        C1,
        0x5ceba5163eaaf6d6,
        0x0a6981610cf65fcc,
    ]);
}

#[test]
fn efi_memory_map_request_id() {
    assert_eq!(EfiMemoryMapRequest::new().id(), &[
        C0,
        C1,
        0x7df62a431d6872d5,
        0xa4fcdfb3e57306c8,
    ]);
}

#[test]
fn boot_time_request_id() {
    assert_eq!(BootTimeRequest::new().id(), &[C0, C1, 0x502746e184c088aa, 0xfbc5ec83e6327893]);
}

#[test]
fn kernel_address_request_id() {
    assert_eq!(KernelAddressRequest::new().id(), &[
        C0,
        C1,
        0x71ba76863cc55f63,
        0xb2644a48c516a487,
    ]);
}

#[test]
fn device_tree_blob_request_id() {
    assert_eq!(DeviceTreeBlobRequest::new().id(), &[
        C0,
        C1,
        0xb40ddb48fb54bac7,
        0x545081493f81ffb7,
    ]);
}

#[test]
fn request_markers() {
    assert_eq!(RequestsStartMarker::new().id, [
        0xf6b8f4b39de7d1ae,
        0xfab91a6940fcb9cf,
        0x785c6ed015d3e316,
        0x181e920a7852b9d9,
    ]);
    assert_eq!(RequestsEndMarker::new().id, [0xadc0e0531bb10d03, 0x9572709f31764c62]);
}

#[test]
fn setters_leave_the_id_words_alone() {
    let req = StackSizeRequest::new().with_size(0x100000);
    assert_eq!(req.id(), &[C0, C1, 0x224ef0460a8e8926, 0xe1cb0fc25f46ea3d]);

    let req = PagingModeRequest::new()
        .with_mode(Mode::FiveLevel)
        .with_max_mode(Mode::FiveLevel)
        .with_min_mode(Mode::FourLevel);
    assert_eq!(req.id(), &[C0, C1, 0x95c1a0edab0944cb, 0xa4e5cb3842f7488a]);

    let req = SmpRequest::new().with_flags(RequestFlags::x2apic());
    assert_eq!(req.id(), &[C0, C1, 0x95a67b819a1b857e, 0xa0b61b723b6a73e0]);

    let req = ModuleRequest::new()
        .with_internal_modules(vec![InternalModule::new().with_path(b"/boot/initrd".to_vec())]);
    assert_eq!(req.id(), &[C0, C1, 0x3e7e279702be32af, 0xca1c4f3bd1280cee]);

    let mut req = EntryPointRequest::new();
    req.set_entry_point(0xdead_beef);
    assert_eq!(req.id(), &[C0, C1, 0x13d86c035a1cd3e1, 0x2b0caa89d8f3026a]);
}
