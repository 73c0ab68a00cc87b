use limine::{BaseRevision, BASE_REVISION_MAGIC_0, BASE_REVISION_MAGIC_1, LATEST_BASE_REVISION};

#[test]
fn new_requests_latest_revision() {
    let tag = BaseRevision::new();
    assert_eq!(LATEST_BASE_REVISION, 3);
    assert_eq!(tag.id, BASE_REVISION_MAGIC_0);
    assert_eq!(tag.loaded, BASE_REVISION_MAGIC_1);
    assert_eq!(tag.revision, 3);
}

#[test]
fn magic_words_are_exact() {
    assert_eq!(BASE_REVISION_MAGIC_0, 0xf9562b2d5c95a6c8);
    assert_eq!(BASE_REVISION_MAGIC_1, 0x6a7b384944536bdc);
}

#[test]
fn untouched_cell_with_zero_revision_is_supported() {
    let tag = BaseRevision::with_revision(0);
    assert!(tag.is_supported());
}

#[test]
fn untouched_cell_with_nonzero_revision_is_unsupported() {
    let tag = BaseRevision::with_revision(3);
    assert!(!tag.is_supported());
    let tag = BaseRevision::with_revision(1);
    assert!(!tag.is_supported());
}

#[test]
fn echoed_revision_reads_back() {
    let mut tag = BaseRevision::with_revision(3);
    tag.publish_revision(2);
    assert_eq!(tag.loaded_revision(), Some(2));
    assert!(tag.is_valid());
}

#[test]
fn zeroed_cell_reads_as_supported_and_loaded_zero() {
    let mut tag = BaseRevision::with_revision(3);
    tag.publish_revision(0);
    assert!(tag.is_supported());
    assert_eq!(tag.loaded_revision(), Some(0));
}

#[test]
fn sentinel_cell_reads_as_invalid() {
    let mut tag = BaseRevision::with_revision(3);
    tag.publish_revision(BASE_REVISION_MAGIC_1);
    assert!(!tag.is_valid());
    assert_eq!(tag.loaded_revision(), None);
}

#[test]
fn untouched_cell_loads_requested_revision() {
    let tag = BaseRevision::with_revision(3);
    assert_eq!(tag.loaded_revision(), Some(3));
}
