//! Framebuffers the bootloader set up for graphics output.

use vstd::prelude::*;
use crate::ptr::CountedPtr;

verus! {

/// The memory model of a framebuffer. The protocol currently defines only
/// the RGB model.
#[derive(Clone, Copy, Debug, PartialEq, Eq, Structural)]
pub enum MemoryModel {
    /// An RGB framebuffer.
    Rgb,
    /// A code this revision of the protocol does not define.
    Unknown(u8),
}

impl MemoryModel {
    /// The integer code the protocol assigns to each memory model.
    pub open spec fn spec_code(self) -> u8 {
        match self {
            MemoryModel::Rgb => 1,
            MemoryModel::Unknown(c) => c,
        }
    }

    /// The memory model a protocol code decodes to.
    pub open spec fn spec_from_code(code: u8) -> MemoryModel {
        if code == 1 {
            MemoryModel::Rgb
        } else {
            MemoryModel::Unknown(code)
        }
    }

    /// Whether the value is one decoding can produce: `Unknown` never
    /// carries the RGB code.
    pub open spec fn wf(self) -> bool {
        match self {
            MemoryModel::Unknown(c) => c != 1,
            _ => true,
        }
    }

    /// Decode a protocol code.
    pub fn from_code(code: u8) -> (r: Self)
        ensures
            r == Self::spec_from_code(code),
            r.wf(),
    {
        if code == 1 {
            MemoryModel::Rgb
        } else {
            MemoryModel::Unknown(code)
        }
    }

    /// The protocol code of this memory model.
    pub fn code(&self) -> (r: u8)
        ensures
            r == self.spec_code(),
    {
        match *self {
            MemoryModel::Rgb => 1,
            MemoryModel::Unknown(c) => c,
        }
    }
}

/// A video mode a framebuffer supports.
#[derive(Clone, Copy, Debug, PartialEq, Eq, Structural)]
pub struct VideoMode {
    /// The pitch (distance between rows, in bytes). Not always
    /// `width * bpp / 8`: padding bytes may be added for alignment.
    pub pitch: u64,
    /// The width, in pixels.
    pub width: u64,
    /// The height, in pixels.
    pub height: u64,
    /// The number of bits (not bytes) per pixel.
    pub bpp: u16,
    /// The memory model of this mode.
    pub memory_model: MemoryModel,
    /// The size of the red mask, in bits.
    pub red_mask_size: u8,
    /// How far the red mask is shifted to the left.
    pub red_mask_shift: u8,
    /// The size of the green mask, in bits.
    pub green_mask_size: u8,
    /// How far the green mask is shifted to the left.
    pub green_mask_shift: u8,
    /// The size of the blue mask, in bits.
    pub blue_mask_size: u8,
    /// How far the blue mask is shifted to the left.
    pub blue_mask_shift: u8,
}

/// One framebuffer as the response publishes it.
///
/// The structure itself carries no revision field; which of its fields are
/// meaningful depends on the revision of the response it came from, which is
/// why reads go through [`Framebuffer`].
pub struct RawFramebuffer {
    /// The address of the framebuffer memory.
    pub addr: u64,
    /// The width in the current mode, in pixels.
    pub width: u64,
    /// The height in the current mode, in pixels.
    pub height: u64,
    /// The pitch in the current mode, in bytes.
    pub pitch: u64,
    /// The number of bits per pixel in the current mode.
    pub bpp: u16,
    /// The memory model in the current mode.
    pub memory_model: MemoryModel,
    /// The size of the red mask, in bits.
    pub red_mask_size: u8,
    /// How far the red mask is shifted to the left.
    pub red_mask_shift: u8,
    /// The size of the green mask, in bits.
    pub green_mask_size: u8,
    /// How far the green mask is shifted to the left.
    pub green_mask_shift: u8,
    /// The size of the blue mask, in bits.
    pub blue_mask_size: u8,
    /// How far the blue mask is shifted to the left.
    pub blue_mask_shift: u8,
    /// The EDID blob of the attached display: a counted run of bytes, with a
    /// null base when no EDID is available.
    pub edid: CountedPtr<u8>,
    /// The video modes this framebuffer supports. Meaningful only on
    /// response revision 1 and greater.
    pub modes: CountedPtr<VideoMode>,
}

/// A framebuffer paired with the revision of the response that published it.
///
/// [`RawFramebuffer`] has no revision field of its own, so the response's
/// revision travels with the borrow and gates the fields later revisions
/// added.
pub struct Framebuffer<'a> {
    /// The revision of the response this framebuffer came from.
    pub revision: u64,
    /// The published framebuffer.
    pub raw: &'a RawFramebuffer,
}

impl<'a> Framebuffer<'a> {
    /// What the protocol guarantees of every published framebuffer: its
    /// counted runs are well-formed.
    pub open spec fn wf(&self) -> bool {
        self.raw.edid.wf() && self.raw.modes.wf()
    }

    /// Pair a published framebuffer with its response's revision.
    pub fn new(revision: u64, raw: &'a RawFramebuffer) -> (r: Self)
        ensures
            r.revision == revision,
            r.raw == raw,
    {
        Framebuffer { revision, raw }
    }

    /// The address of the framebuffer memory. Access to the pixels is not
    /// synchronized by this layer.
    pub fn addr(&self) -> (r: u64)
        ensures
            r == self.raw.addr,
    {
        self.raw.addr
    }

    /// The width in the current mode, in pixels.
    pub fn width(&self) -> (r: u64)
        ensures
            r == self.raw.width,
    {
        self.raw.width
    }

    /// The height in the current mode, in pixels.
    pub fn height(&self) -> (r: u64)
        ensures
            r == self.raw.height,
    {
        self.raw.height
    }

    /// The pitch in the current mode, in bytes.
    pub fn pitch(&self) -> (r: u64)
        ensures
            r == self.raw.pitch,
    {
        self.raw.pitch
    }

    /// The number of bits (not bytes) per pixel in the current mode.
    pub fn bpp(&self) -> (r: u16)
        ensures
            r == self.raw.bpp,
    {
        self.raw.bpp
    }

    /// The memory model in the current mode.
    pub fn memory_model(&self) -> (r: MemoryModel)
        ensures
            r == self.raw.memory_model,
    {
        self.raw.memory_model
    }

    /// The size of the red mask, in bits.
    pub fn red_mask_size(&self) -> (r: u8)
        ensures
            r == self.raw.red_mask_size,
    {
        self.raw.red_mask_size
    }

    /// How far the red mask is shifted to the left.
    pub fn red_mask_shift(&self) -> (r: u8)
        ensures
            r == self.raw.red_mask_shift,
    {
        self.raw.red_mask_shift
    }

    /// The size of the green mask, in bits.
    pub fn green_mask_size(&self) -> (r: u8)
        ensures
            r == self.raw.green_mask_size,
    {
        self.raw.green_mask_size
    }

    /// How far the green mask is shifted to the left.
    pub fn green_mask_shift(&self) -> (r: u8)
        ensures
            r == self.raw.green_mask_shift,
    {
        self.raw.green_mask_shift
    }

    /// The size of the blue mask, in bits.
    pub fn blue_mask_size(&self) -> (r: u8)
        ensures
            r == self.raw.blue_mask_size,
    {
        self.raw.blue_mask_size
    }

    /// How far the blue mask is shifted to the left.
    pub fn blue_mask_shift(&self) -> (r: u8)
        ensures
            r == self.raw.blue_mask_shift,
    {
        self.raw.blue_mask_shift
    }

    /// The raw EDID bytes of the attached display, when an EDID blob was
    /// published.
    pub fn edid(&self) -> (r: Option<Vec<u8>>)
        requires
            self.wf(),
        ensures
            match r {
                Option::Some(v) => !self.raw.edid.is_null() && v@ == self.raw.edid@,
                Option::None => self.raw.edid.is_null(),
            },
    {
        if self.raw.edid.has_base() {
            Some(self.raw.edid.to_vec())
        } else {
            None
        }
    }

    /// The video modes this framebuffer supports: published only by response
    /// revision 1 and greater, and read only then.
    pub fn modes(&self) -> (r: Option<Vec<VideoMode>>)
        requires
            self.wf(),
        ensures
            match r {
                Option::Some(v) => self.revision >= 1 && v@ == self.raw.modes@,
                Option::None => self.revision == 0,
            },
    {
        if self.revision == 0 {
            None
        } else {
            Some(self.raw.modes.to_vec())
        }
    }
}

} // verus!
