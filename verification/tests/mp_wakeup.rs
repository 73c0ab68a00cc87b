//! Processor wake-up: writing a jump target into a descriptor's slot is
//! observable through the slot's accessor immediately afterwards.

use limine::mp::{Cpu, GotoAddress, RequestFlags, ResponseFlags};
use limine::ptr::CountedPtr;
use limine::request::SmpRequest;
use limine::response::MpResponse;

#[test]
fn a_fresh_slot_is_parked() {
    let slot = GotoAddress::new();
    assert_eq!(slot.get(), None);
}

#[test]
fn a_written_slot_reads_the_target_back() {
    let mut slot = GotoAddress::new();
    slot.write(0xffff_ffff_8020_0000);
    assert_eq!(slot.get(), Some(0xffff_ffff_8020_0000));
}

#[test]
fn dispatch_through_a_published_response() {
    let mut req = SmpRequest::new();
    req.response.publish(MpResponse {
        revision: 0,
        flags: ResponseFlags::empty(),
        bsp_lapic_id: 0,
        cpus: CountedPtr::new(2, Some(vec![Cpu::new(0, 0), Cpu::new(1, 2)])),
    });

    let resp = req.response.get_mut();
    assert_eq!(resp.cpu_count(), 2);
    assert_eq!(resp.cpu_at(1).lapic_id, 2);
    assert_eq!(resp.cpu_at(1).goto_address.get(), None);

    let entry: u64 = 0xffff_ffff_8030_0000;
    let cpu = resp.cpu_at_mut(1);
    cpu.extra = 7;
    cpu.goto_address.write(entry);

    assert_eq!(resp.cpu_at(1).goto_address.get(), Some(entry));
    assert_eq!(resp.cpu_at(1).extra, 7);
    // The boot processor's descriptor is untouched.
    assert_eq!(resp.cpu_at(0).goto_address.get(), None);
    assert_eq!(resp.cpu_at(0).extra, 0);
}

#[test]
fn request_flags_round_trip() {
    assert_eq!(RequestFlags::empty().bits(), 0);
    assert_eq!(RequestFlags::x2apic().bits(), 1);
    assert!(RequestFlags::x2apic().contains(RequestFlags::x2apic()));
    assert!(RequestFlags::x2apic().contains(RequestFlags::empty()));
    assert!(!RequestFlags::empty().contains(RequestFlags::x2apic()));
    assert_eq!(RequestFlags::empty().union(RequestFlags::x2apic()), RequestFlags::x2apic());
    assert_eq!(RequestFlags::from_bits(5).bits(), 5);
}

#[test]
fn response_flags_round_trip() {
    assert_eq!(ResponseFlags::empty().bits(), 0);
    assert_eq!(ResponseFlags::x2apic().bits(), 1);
    assert!(ResponseFlags::x2apic().contains(ResponseFlags::empty()));
    assert_eq!(ResponseFlags::from_bits(1), ResponseFlags::x2apic());
}
