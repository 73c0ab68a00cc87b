//! Fresh requests have empty response slots; setters read back what was
//! set, in place or chained, and commuting setters may run in any order.

use limine::modules::{InternalModule, ModuleFlags};
use limine::mp::RequestFlags;
use limine::paging::Mode;
use limine::request::{
    BootTimeRequest, BootloaderInfoRequest, DeviceTreeBlobRequest, EfiMemoryMapRequest,
    EfiSystemTableRequest, EntryPointRequest, FirmwareTypeRequest, FramebufferRequest,
    HhdmRequest, KernelAddressRequest, KernelFileRequest, MemoryMapRequest, ModuleRequest,
    PagingModeRequest, RsdpRequest, SmbiosRequest, SmpRequest, StackSizeRequest,
};

#[test]
fn fresh_requests_have_no_response() {
    assert!(BootloaderInfoRequest::new().get_response().is_none());
    assert!(FirmwareTypeRequest::new().get_response().is_none());
    assert!(StackSizeRequest::new().get_response().is_none());
    assert!(HhdmRequest::new().get_response().is_none());
    assert!(FramebufferRequest::new().get_response().is_none());
    assert!(PagingModeRequest::new().get_response().is_none());
    assert!(SmpRequest::new().get_response().is_none());
    assert!(MemoryMapRequest::new().get_response().is_none());
    assert!(EntryPointRequest::new().get_response().is_none());
    assert!(KernelFileRequest::new().get_response().is_none());
    assert!(ModuleRequest::new().get_response().is_none());
    assert!(RsdpRequest::new().get_response().is_none());
    assert!(SmbiosRequest::new().get_response().is_none());
    assert!(EfiSystemTableRequest::new().get_response().is_none());
    assert!(EfiMemoryMapRequest::new().get_response().is_none());
    assert!(BootTimeRequest::new().get_response().is_none());
    assert!(KernelAddressRequest::new().get_response().is_none());
    assert!(DeviceTreeBlobRequest::new().get_response().is_none());
}

#[test]
fn configured_requests_still_have_no_response() {
    assert!(StackSizeRequest::new().with_size(0x32000).get_response().is_none());
    assert!(PagingModeRequest::new().with_mode(Mode::FiveLevel).get_response().is_none());
}

#[test]
fn revisions_read_back() {
    assert_eq!(StackSizeRequest::new().revision(), 0);
    assert_eq!(StackSizeRequest::with_revision(7).revision(), 7);
    assert_eq!(PagingModeRequest::new().revision(), 1);
    assert_eq!(ModuleRequest::new().revision(), 1);
    assert_eq!(ModuleRequest::with_revision(0).revision(), 0);
}

#[test]
fn stack_size_round_trip() {
    let req = StackSizeRequest::new();
    assert_eq!(req.size(), 0);
    let req = req.with_size(0x100000);
    assert_eq!(req.size(), 0x100000);

    let mut req = StackSizeRequest::new();
    req.set_size(0x32000);
    assert_eq!(req.size(), 0x32000);
}

#[test]
fn paging_mode_round_trip() {
    let req = PagingModeRequest::new();
    assert_eq!(req.mode(), Mode::FourLevel);
    assert_eq!(req.max_mode(), Mode::FourLevel);
    assert_eq!(req.min_mode(), Mode::FourLevel);

    let req = req.with_mode(Mode::FiveLevel).with_max_mode(Mode::FiveLevel);
    assert_eq!(req.mode(), Mode::FiveLevel);
    assert_eq!(req.max_mode(), Mode::FiveLevel);
    assert_eq!(req.min_mode(), Mode::FourLevel);

    let mut req = PagingModeRequest::new();
    req.set_mode(Mode::FiveLevel);
    req.set_min_mode(Mode::FourLevel);
    assert_eq!(req.mode(), Mode::FiveLevel);
    assert_eq!(req.min_mode(), Mode::FourLevel);
}

#[test]
fn commuting_setters_agree_in_any_order() {
    let one = PagingModeRequest::new().with_mode(Mode::FiveLevel).with_max_mode(Mode::FiveLevel);
    let two = PagingModeRequest::new().with_max_mode(Mode::FiveLevel).with_mode(Mode::FiveLevel);
    assert_eq!(one.id(), two.id());
    assert_eq!(one.revision(), two.revision());
    assert_eq!(one.mode(), two.mode());
    assert_eq!(one.max_mode(), two.max_mode());
    assert_eq!(one.min_mode(), two.min_mode());
}

#[test]
fn in_place_and_chained_setters_agree() {
    let chained = PagingModeRequest::new().with_mode(Mode::FiveLevel).with_min_mode(
        Mode::FourLevel,
    );
    let mut in_place = PagingModeRequest::new();
    in_place.set_mode(Mode::FiveLevel);
    in_place.set_min_mode(Mode::FourLevel);
    assert_eq!(chained.id(), in_place.id());
    assert_eq!(chained.mode(), in_place.mode());
    assert_eq!(chained.max_mode(), in_place.max_mode());
    assert_eq!(chained.min_mode(), in_place.min_mode());
}

#[test]
fn smp_flags_round_trip() {
    let req = SmpRequest::new();
    assert_eq!(req.flags().bits, 0);
    let req = req.with_flags(RequestFlags::x2apic());
    assert_eq!(req.flags().bits, 1);

    let mut req = SmpRequest::new();
    req.set_flags(RequestFlags::x2apic());
    assert_eq!(req.flags(), RequestFlags::x2apic());
}

#[test]
fn entry_point_round_trip() {
    let req = EntryPointRequest::new();
    assert_eq!(req.entry_point(), 0);
    let req = req.with_entry_point(0xffff_ffff_8010_0000);
    assert_eq!(req.entry_point(), 0xffff_ffff_8010_0000);
}

#[test]
fn internal_modules_round_trip() {
    let req = ModuleRequest::new();
    assert!(req.internal_modules().is_empty());

    let module = InternalModule::new()
        .with_path(b"/path/to/a/module".to_vec())
        .with_cmdline(b"quiet".to_vec())
        .with_flags(ModuleFlags::required());
    let req = req.with_internal_modules(vec![module]);
    assert_eq!(req.internal_modules().len(), 1);
    assert_eq!(req.internal_modules()[0].path(), &b"/path/to/a/module".to_vec());
    assert_eq!(req.internal_modules()[0].cmdline(), &b"quiet".to_vec());
    assert_eq!(req.internal_modules()[0].flags(), ModuleFlags::required());
}

#[test]
fn internal_module_setters_in_place() {
    let mut module = InternalModule::new();
    assert!(module.path().is_empty());
    assert!(module.cmdline().is_empty());
    assert_eq!(module.flags().bits, 0);

    module.set_path(b"/boot/initrd".to_vec());
    module.set_cmdline(b"ro".to_vec());
    module.set_flags(ModuleFlags::required().union(ModuleFlags::compressed()));
    assert_eq!(module.path(), &b"/boot/initrd".to_vec());
    assert_eq!(module.cmdline(), &b"ro".to_vec());
    assert_eq!(module.flags().bits, 3);
}

#[test]
fn module_setters_commute() {
    let one = InternalModule::new()
        .with_path(b"/boot/initrd".to_vec())
        .with_cmdline(b"ro".to_vec());
    let two = InternalModule::new()
        .with_cmdline(b"ro".to_vec())
        .with_path(b"/boot/initrd".to_vec());
    assert_eq!(one.path(), two.path());
    assert_eq!(one.cmdline(), two.cmdline());
    assert_eq!(one.flags(), two.flags());
}
