//! The memory-map checker accepts exactly the maps that keep the
//! protocol's promises: sorted bases, page-aligned usable and
//! bootloader-reclaimable regions, and no overlap among them.

use limine::memory_map::{check_memory_map, Entry, EntryType};
use limine::ptr::CountedPtr;
use limine::request::MemoryMapRequest;
use limine::response::MemoryMapResponse;

fn entry(base: u64, length: u64, entry_type: EntryType) -> Entry {
    Entry { base, length, entry_type }
}

#[test]
fn a_typical_map_is_well_formed() {
    let entries = vec![
        entry(0x0, 0x1000, EntryType::Reserved),
        entry(0x1000, 0x9e000, EntryType::Usable),
        entry(0x9f000, 0x1000, EntryType::Reserved),
        entry(0x100000, 0x700000, EntryType::Usable),
        entry(0x800000, 0x8000, EntryType::BootloaderReclaimable),
        entry(0x808000, 0x8000, EntryType::KernelAndModules),
        entry(0x810000, 0x10000, EntryType::Framebuffer),
    ];
    assert!(check_memory_map(&entries));
}

#[test]
fn the_empty_map_is_well_formed() {
    assert!(check_memory_map(&Vec::new()));
}

#[test]
fn unsorted_bases_are_rejected() {
    let entries = vec![
        entry(0x2000, 0x1000, EntryType::Reserved),
        entry(0x1000, 0x1000, EntryType::Reserved),
    ];
    assert!(!check_memory_map(&entries));
}

#[test]
fn equal_bases_are_allowed() {
    let entries = vec![
        entry(0x1000, 0x1000, EntryType::Reserved),
        entry(0x1000, 0x2000, EntryType::AcpiNvs),
    ];
    assert!(check_memory_map(&entries));
}

#[test]
fn a_misaligned_usable_base_is_rejected() {
    let entries = vec![entry(0x1008, 0x1000, EntryType::Usable)];
    assert!(!check_memory_map(&entries));
}

#[test]
fn a_misaligned_usable_length_is_rejected() {
    let entries = vec![entry(0x1000, 0x1800, EntryType::Usable)];
    assert!(!check_memory_map(&entries));
}

#[test]
fn a_misaligned_reclaimable_entry_is_rejected() {
    let entries = vec![entry(0x3000, 0x10, EntryType::BootloaderReclaimable)];
    assert!(!check_memory_map(&entries));
}

#[test]
fn misaligned_reserved_entries_are_allowed() {
    let entries = vec![
        entry(0x9f400, 0x37, EntryType::Reserved),
        entry(0xe0000, 0x123, EntryType::AcpiReclaimable),
    ];
    assert!(check_memory_map(&entries));
}

#[test]
fn overlapping_usable_entries_are_rejected() {
    let entries = vec![
        entry(0x1000, 0x3000, EntryType::Usable),
        entry(0x2000, 0x1000, EntryType::Usable),
    ];
    assert!(!check_memory_map(&entries));
}

#[test]
fn usable_overlapping_reclaimable_is_rejected() {
    let entries = vec![
        entry(0x1000, 0x3000, EntryType::Usable),
        entry(0x3000, 0x2000, EntryType::BootloaderReclaimable),
    ];
    assert!(!check_memory_map(&entries));
}

#[test]
fn adjacent_usable_entries_are_allowed() {
    let entries = vec![
        entry(0x1000, 0x1000, EntryType::Usable),
        entry(0x2000, 0x1000, EntryType::BootloaderReclaimable),
    ];
    assert!(check_memory_map(&entries));
}

#[test]
fn usable_overlapping_reserved_is_allowed() {
    // Only usable and bootloader-reclaimable entries carry the non-overlap
    // guarantee.
    let entries = vec![
        entry(0x1000, 0x3000, EntryType::Usable),
        entry(0x2000, 0x1000, EntryType::Reserved),
    ];
    assert!(check_memory_map(&entries));
}

#[test]
fn overlap_with_a_gap_entry_between_is_rejected() {
    let entries = vec![
        entry(0x1000, 0x4000, EntryType::Usable),
        entry(0x2000, 0x100, EntryType::Reserved),
        entry(0x3000, 0x1000, EntryType::Usable),
    ];
    assert!(!check_memory_map(&entries));
}

#[test]
fn huge_entries_do_not_wrap() {
    // base + length would wrap a 64-bit word; the checker must still see
    // the overlap.
    let entries = vec![
        entry(0xffff_ffff_ffff_0000, 0xf000, EntryType::Usable),
        entry(0xffff_ffff_ffff_e000, 0x1000, EntryType::Usable),
    ];
    assert!(!check_memory_map(&entries));
}

#[test]
fn a_response_checks_its_own_entries() {
    let mut req = MemoryMapRequest::new();
    req.response.publish(MemoryMapResponse {
        revision: 0,
        entries: CountedPtr::new(
            2,
            Some(vec![
                entry(0x1000, 0x1000, EntryType::Usable),
                entry(0x2000, 0x2000, EntryType::Usable),
            ]),
        ),
    });
    let resp = req.get_response().unwrap();
    assert_eq!(resp.entry_count(), 2);
    assert_eq!(resp.entry_at(1).base, 0x2000);
    assert!(resp.check());
    assert_eq!(resp.entries().len(), 2);
}

#[test]
fn marking_an_entry_in_place() {
    let mut resp = MemoryMapResponse {
        revision: 0,
        entries: CountedPtr::new(
            1,
            Some(vec![entry(0x1000, 0x1000, EntryType::BootloaderReclaimable)]),
        ),
    };
    resp.entry_at_mut(0).entry_type = EntryType::Usable;
    assert_eq!(resp.entry_at(0).entry_type, EntryType::Usable);
}

#[test]
fn entry_type_codes_round_trip() {
    assert_eq!(EntryType::from_code(0), EntryType::Usable);
    assert_eq!(EntryType::from_code(1), EntryType::Reserved);
    assert_eq!(EntryType::from_code(2), EntryType::AcpiReclaimable);
    assert_eq!(EntryType::from_code(3), EntryType::AcpiNvs);
    assert_eq!(EntryType::from_code(4), EntryType::BadMemory);
    assert_eq!(EntryType::from_code(5), EntryType::BootloaderReclaimable);
    assert_eq!(EntryType::from_code(6), EntryType::KernelAndModules);
    assert_eq!(EntryType::from_code(7), EntryType::Framebuffer);
    assert_eq!(EntryType::from_code(99), EntryType::Unknown(99));
    for code in 0..12u64 {
        assert_eq!(EntryType::from_code(code).code(), code);
    }
    assert_eq!(EntryType::from(5u64), EntryType::BootloaderReclaimable);
}
