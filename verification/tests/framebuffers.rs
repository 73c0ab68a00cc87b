//! Framebuffer decoding: scalar fields read back exactly, the EDID blob
//! distinguishes absent from empty, and the mode list is gated on the
//! response revision.

use limine::framebuffer::{MemoryModel, RawFramebuffer, VideoMode};
use limine::ptr::CountedPtr;
use limine::request::FramebufferRequest;
use limine::response::FramebufferResponse;

fn mode_fixture() -> VideoMode {
    VideoMode {
        pitch: 4096,
        width: 1024,
        height: 768,
        bpp: 32,
        memory_model: MemoryModel::Rgb,
        red_mask_size: 8,
        red_mask_shift: 16,
        green_mask_size: 8,
        green_mask_shift: 8,
        blue_mask_size: 8,
        blue_mask_shift: 0,
    }
}

fn raw_fixture() -> RawFramebuffer {
    RawFramebuffer {
        addr: 0xfd00_0000,
        width: 1024,
        height: 768,
        pitch: 4096,
        bpp: 32,
        memory_model: MemoryModel::Rgb,
        red_mask_size: 8,
        red_mask_shift: 16,
        green_mask_size: 8,
        green_mask_shift: 8,
        blue_mask_size: 8,
        blue_mask_shift: 0,
        edid: CountedPtr::new(0, None),
        modes: CountedPtr::new(1, Some(vec![mode_fixture()])),
    }
}

#[test]
fn scalar_fields_read_back() {
    let mut req = FramebufferRequest::new();
    req.response.publish(FramebufferResponse {
        revision: 1,
        framebuffers: CountedPtr::new(1, Some(vec![raw_fixture()])),
    });
    let resp = req.get_response().unwrap();
    assert_eq!(resp.revision(), 1);
    assert_eq!(resp.framebuffer_count(), 1);

    let fb = resp.framebuffer_at(0);
    assert_eq!(fb.addr(), 0xfd00_0000);
    assert_eq!(fb.width(), 1024);
    assert_eq!(fb.height(), 768);
    assert_eq!(fb.pitch(), 4096);
    assert_eq!(fb.bpp(), 32);
    assert_eq!(fb.memory_model(), MemoryModel::Rgb);
    assert_eq!(fb.red_mask_size(), 8);
    assert_eq!(fb.red_mask_shift(), 16);
    assert_eq!(fb.green_mask_size(), 8);
    assert_eq!(fb.green_mask_shift(), 8);
    assert_eq!(fb.blue_mask_size(), 8);
    assert_eq!(fb.blue_mask_shift(), 0);
}

#[test]
fn absent_edid_is_none() {
    let resp = FramebufferResponse {
        revision: 0,
        framebuffers: CountedPtr::new(1, Some(vec![raw_fixture()])),
    };
    assert_eq!(resp.framebuffer_at(0).edid(), None);
}

#[test]
fn published_edid_reads_back() {
    let mut raw = raw_fixture();
    raw.edid = CountedPtr::new(3, Some(vec![0x00, 0xff, 0x42]));
    let resp = FramebufferResponse { revision: 0, framebuffers: CountedPtr::new(1, Some(vec![raw])) };
    assert_eq!(resp.framebuffer_at(0).edid(), Some(vec![0x00, 0xff, 0x42]));
}

#[test]
fn modes_are_hidden_below_revision_one() {
    let resp = FramebufferResponse {
        revision: 0,
        framebuffers: CountedPtr::new(1, Some(vec![raw_fixture()])),
    };
    assert_eq!(resp.framebuffer_at(0).modes(), None);
}

#[test]
fn modes_are_visible_from_revision_one() {
    let resp = FramebufferResponse {
        revision: 1,
        framebuffers: CountedPtr::new(1, Some(vec![raw_fixture()])),
    };
    assert_eq!(resp.framebuffer_at(0).modes(), Some(vec![mode_fixture()]));
}

#[test]
fn memory_model_codes_round_trip() {
    assert_eq!(MemoryModel::from_code(1), MemoryModel::Rgb);
    assert_eq!(MemoryModel::from_code(0), MemoryModel::Unknown(0));
    assert_eq!(MemoryModel::from_code(1).code(), 1);
    assert_eq!(MemoryModel::from_code(9).code(), 9);
}
