//! Files the bootloader loaded: the executable itself and its modules.

use vstd::prelude::*;
use crate::ptr::{CStrPtr, cstr_decoded};

verus! {

/// A UUID, split into the four fields GPT records.
///
/// The protocol uses the all-zero UUID as the sentinel for "absent".
#[derive(Clone, Copy, Debug, Eq)]
pub struct Uuid {
    /// The first 32 bits of the UUID.
    pub a: u32,
    /// The next 16 bits of the UUID.
    pub b: u16,
    /// The next 16 bits of the UUID.
    pub c: u16,
    /// The last 64 bits of the UUID.
    pub d: [u8; 8],
}

impl PartialEq for Uuid {
    /// Two UUIDs are equal when all four fields are.
    fn eq(&self, other: &Uuid) -> (r: bool) {
        let tail: bool = self.d[0] == other.d[0] && self.d[1] == other.d[1] && self.d[2]
            == other.d[2] && self.d[3] == other.d[3] && self.d[4] == other.d[4] && self.d[5]
            == other.d[5] && self.d[6] == other.d[6] && self.d[7] == other.d[7];
        let r = self.a == other.a && self.b == other.b && self.c == other.c && tail;
        proof {
            if r {
                assert(self.d@ =~= other.d@);
            }
        }
        r
    }
}

impl vstd::std_specs::cmp::PartialEqSpecImpl for Uuid {
    open spec fn obeys_eq_spec() -> bool {
        true
    }

    open spec fn eq_spec(&self, other: &Uuid) -> bool {
        self.a == other.a && self.b == other.b && self.c == other.c && self.d@ == other.d@
    }
}

impl Uuid {
    /// Whether this is the all-zero sentinel.
    pub open spec fn spec_is_zero(&self) -> bool {
        self.a == 0 && self.b == 0 && self.c == 0 && (forall|i: int| 0 <= i < 8 ==> self.d@[i] == 0)
    }

    /// The UUID itself unless it is the all-zero sentinel.
    pub fn non_zero(&self) -> (r: Option<Self>)
        ensures
            r == if self.spec_is_zero() {
                Option::<Uuid>::None
            } else {
                Option::<Uuid>::Some(*self)
            },
    {
        let tail_zero: bool = self.d[0] == 0 && self.d[1] == 0 && self.d[2] == 0 && self.d[3] == 0
            && self.d[4] == 0 && self.d[5] == 0 && self.d[6] == 0 && self.d[7] == 0;
        if self.a == 0 && self.b == 0 && self.c == 0 && tail_zero {
            None
        } else {
            Some(*self)
        }
    }
}

/// The medium a file was loaded from.
///
/// The protocol carries this as an integer code; codes this revision does not
/// know decode to [`MediaType::Unknown`].
#[derive(Clone, Copy, Debug, PartialEq, Eq, Structural)]
pub enum MediaType {
    /// An unspecified medium.
    Generic,
    /// A CD-ROM.
    Optical,
    /// A TFTP server.
    Tftp,
    /// A code this revision of the protocol does not define.
    Unknown(u32),
}

impl MediaType {
    /// The integer code the protocol assigns to each medium.
    pub open spec fn spec_code(self) -> u32 {
        match self {
            MediaType::Generic => 0,
            MediaType::Optical => 1,
            MediaType::Tftp => 2,
            MediaType::Unknown(c) => c,
        }
    }

    /// The medium a protocol code decodes to.
    pub open spec fn spec_from_code(code: u32) -> MediaType {
        if code == 0 {
            MediaType::Generic
        } else if code == 1 {
            MediaType::Optical
        } else if code == 2 {
            MediaType::Tftp
        } else {
            MediaType::Unknown(code)
        }
    }

    /// Whether the value is one decoding can produce: `Unknown` only carries
    /// codes outside the defined range.
    pub open spec fn wf(self) -> bool {
        match self {
            MediaType::Unknown(c) => c > 2,
            _ => true,
        }
    }

    /// Decode a protocol code.
    pub fn from_code(code: u32) -> (r: Self)
        ensures
            r == Self::spec_from_code(code),
            r.wf(),
    {
        if code == 0 {
            MediaType::Generic
        } else if code == 1 {
            MediaType::Optical
        } else if code == 2 {
            MediaType::Tftp
        } else {
            MediaType::Unknown(code)
        }
    }

    /// The protocol code of this medium.
    pub fn code(&self) -> (r: u32)
        ensures
            r == self.spec_code(),
    {
        match *self {
            MediaType::Generic => 0,
            MediaType::Optical => 1,
            MediaType::Tftp => 2,
            MediaType::Unknown(c) => c,
        }
    }
}

/// Every protocol code survives a decode unchanged, and decoding the code of
/// a decodable value gives the value back.
pub proof fn lemma_media_type_code_roundtrip(code: u32, m: MediaType)
    requires
        m.wf(),
    ensures
        MediaType::spec_from_code(code).spec_code() == code,
        MediaType::spec_from_code(m.spec_code()) == m,
{
}

/// A file the bootloader loaded.
///
/// Scalar provenance fields use zero as the sentinel for "absent"; the
/// accessors turn the sentinel into `None`.
pub struct File {
    /// The revision of this structure. Currently always zero.
    pub revision: u64,
    /// The address of the raw file data in memory.
    pub addr: u64,
    /// The size of the file, in bytes.
    pub size: u64,
    /// The file's path, as the zero-terminated string the response points
    /// at. Its encoding is unspecified.
    pub path: CStrPtr,
    /// The file's command line, as the zero-terminated string the response
    /// points at. Its encoding is unspecified.
    pub cmdline: CStrPtr,
    /// The medium the file was loaded from.
    pub media_type: MediaType,
    /// The IP address of the TFTP server the file came from; zero when the
    /// file was not loaded over TFTP.
    pub tftp_ip: u32,
    /// The port of the TFTP server the file came from; zero when the file
    /// was not loaded over TFTP.
    pub tftp_port: u32,
    /// The one-based index of the partition the file came from; zero when
    /// there was no partition.
    pub partition_idx: u32,
    /// The MBR disk id of the disk the file came from; zero when the disk
    /// had none.
    pub mbr_disk_id: u32,
    /// The GPT disk UUID of the disk the file came from; all-zero when the
    /// disk had none.
    pub gpt_disk_id: Uuid,
    /// The GPT partition UUID of the partition the file came from; all-zero
    /// when there was none.
    pub gpt_partition_id: Uuid,
    /// The filesystem UUID of the partition the file came from; all-zero
    /// when there was none.
    pub partition_uuid: Uuid,
}

impl File {
    /// What the protocol guarantees of every published file: its strings are
    /// terminated.
    pub open spec fn wf(&self) -> bool {
        self.path.wf() && self.cmdline.wf()
    }

    /// The revision of this structure.
    pub fn revision(&self) -> (r: u64)
        ensures
            r == self.revision,
    {
        self.revision
    }

    /// The address of the raw file data. Not necessarily executable code; it
    /// points at the file bytes as loaded.
    pub fn addr(&self) -> (r: u64)
        ensures
            r == self.addr,
    {
        self.addr
    }

    /// The size of the file, in bytes.
    pub fn size(&self) -> (r: u64)
        ensures
            r == self.size,
    {
        self.size
    }

    /// The file's path: the bytes before the terminator of the pointed-at
    /// string.
    pub fn path(&self) -> (r: Vec<u8>)
        requires
            self.wf(),
        ensures
            r@ == cstr_decoded(self.path@),
    {
        self.path.to_bytes()
    }

    /// The file's command line: the bytes before the terminator of the
    /// pointed-at string.
    pub fn cmdline(&self) -> (r: Vec<u8>)
        requires
            self.wf(),
        ensures
            r@ == cstr_decoded(self.cmdline@),
    {
        self.cmdline.to_bytes()
    }

    /// The medium the file was loaded from.
    pub fn media_type(&self) -> (r: MediaType)
        ensures
            r == self.media_type,
    {
        self.media_type
    }

    /// The TFTP server's IP address, if the file was loaded over TFTP.
    pub fn tftp_ip(&self) -> (r: Option<u32>)
        ensures
            r == if self.tftp_ip == 0 {
                Option::<u32>::None
            } else {
                Option::<u32>::Some(self.tftp_ip)
            },
    {
        if self.tftp_ip == 0 {
            None
        } else {
            Some(self.tftp_ip)
        }
    }

    /// The TFTP server's port, if the file was loaded over TFTP.
    pub fn tftp_port(&self) -> (r: Option<u32>)
        ensures
            r == if self.tftp_port == 0 {
                Option::<u32>::None
            } else {
                Option::<u32>::Some(self.tftp_port)
            },
    {
        if self.tftp_port == 0 {
            None
        } else {
            Some(self.tftp_port)
        }
    }

    /// The one-based partition index, if the file came from a partition.
    pub fn partition_idx(&self) -> (r: Option<u32>)
        ensures
            r == if self.partition_idx == 0 {
                Option::<u32>::None
            } else {
                Option::<u32>::Some(self.partition_idx)
            },
    {
        if self.partition_idx == 0 {
            None
        } else {
            Some(self.partition_idx)
        }
    }

    /// The MBR disk id, if the file came from an MBR disk.
    pub fn mbr_disk_id(&self) -> (r: Option<u32>)
        ensures
            r == if self.mbr_disk_id == 0 {
                Option::<u32>::None
            } else {
                Option::<u32>::Some(self.mbr_disk_id)
            },
    {
        if self.mbr_disk_id == 0 {
            None
        } else {
            Some(self.mbr_disk_id)
        }
    }

    /// The GPT disk UUID, if the file came from a GPT disk.
    pub fn gpt_disk_id(&self) -> (r: Option<Uuid>)
        ensures
            r == if self.gpt_disk_id.spec_is_zero() {
                Option::<Uuid>::None
            } else {
                Option::<Uuid>::Some(self.gpt_disk_id)
            },
    {
        self.gpt_disk_id.non_zero()
    }

    /// The GPT partition UUID, if the file came from a GPT partition.
    pub fn gpt_partition_id(&self) -> (r: Option<Uuid>)
        ensures
            r == if self.gpt_partition_id.spec_is_zero() {
                Option::<Uuid>::None
            } else {
                Option::<Uuid>::Some(self.gpt_partition_id)
            },
    {
        self.gpt_partition_id.non_zero()
    }

    /// The filesystem UUID, if the file's partition carried one.
    pub fn partition_uuid(&self) -> (r: Option<Uuid>)
        ensures
            r == if self.partition_uuid.spec_is_zero() {
                Option::<Uuid>::None
            } else {
                Option::<Uuid>::Some(self.partition_uuid)
            },
    {
        self.partition_uuid.non_zero()
    }
}

} // verus!
