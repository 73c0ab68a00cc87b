//! Enumerated protocol codes decode to their named values and unknown
//! codes stay distinguishable, surviving a round trip unchanged.

use limine::file::{MediaType, Uuid};
use limine::firmware_type::FirmwareType;
use limine::modules::ModuleFlags;
use limine::paging::Mode;

#[test]
fn firmware_type_codes_round_trip() {
    assert_eq!(FirmwareType::from_code(0), FirmwareType::X86Bios);
    assert_eq!(FirmwareType::from_code(1), FirmwareType::Uefi32);
    assert_eq!(FirmwareType::from_code(2), FirmwareType::Uefi64);
    assert_eq!(FirmwareType::from_code(3), FirmwareType::Sbi);
    assert_eq!(FirmwareType::from_code(17), FirmwareType::Unknown(17));
    for code in 0..8u64 {
        assert_eq!(FirmwareType::from_code(code).code(), code);
    }
}

#[test]
fn paging_mode_codes_round_trip() {
    assert_eq!(Mode::from_code(0), Mode::FourLevel);
    assert_eq!(Mode::from_code(1), Mode::FiveLevel);
    assert_eq!(Mode::from_code(6), Mode::Unknown(6));
    for code in 0..4u64 {
        assert_eq!(Mode::from_code(code).code(), code);
    }
    assert_eq!(Mode::default_mode(), Mode::FourLevel);
    assert_eq!(Mode::max_mode(), Mode::FiveLevel);
    assert_eq!(Mode::min_mode(), Mode::FourLevel);
}

#[test]
fn media_type_codes_round_trip() {
    assert_eq!(MediaType::from_code(0), MediaType::Generic);
    assert_eq!(MediaType::from_code(1), MediaType::Optical);
    assert_eq!(MediaType::from_code(2), MediaType::Tftp);
    assert_eq!(MediaType::from_code(3), MediaType::Unknown(3));
    for code in 0..6u32 {
        assert_eq!(MediaType::from_code(code).code(), code);
    }
}

#[test]
fn module_flags_combine() {
    assert_eq!(ModuleFlags::empty().bits(), 0);
    assert_eq!(ModuleFlags::required().bits(), 1);
    assert_eq!(ModuleFlags::compressed().bits(), 2);
    let both = ModuleFlags::required().union(ModuleFlags::compressed());
    assert_eq!(both.bits(), 3);
    assert!(both.contains(ModuleFlags::required()));
    assert!(both.contains(ModuleFlags::compressed()));
    assert!(!ModuleFlags::required().contains(ModuleFlags::compressed()));
    assert_eq!(ModuleFlags::from_bits(3), both);
}

#[test]
fn uuid_equality_and_zero_sentinel() {
    let zero = Uuid { a: 0, b: 0, c: 0, d: [0; 8] };
    let one = Uuid { a: 0, b: 0, c: 0, d: [0, 0, 0, 0, 0, 0, 0, 1] };
    assert_eq!(zero, zero);
    assert_ne!(zero, one);
    assert_eq!(zero.non_zero(), None);
    assert_eq!(one.non_zero(), Some(one));
}
