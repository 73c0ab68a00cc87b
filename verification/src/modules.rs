//! Internal modules the executable asks the bootloader to load.

use vstd::prelude::*;

verus! {

/// Flags for an internal module.
///
/// The protocol defines two bits: a required module makes the bootloader
/// refuse to boot when the module is missing, and a compressed module is
/// uncompressed by the bootloader before handoff.
#[derive(Clone, Copy, Debug, PartialEq, Eq, Structural)]
pub struct ModuleFlags {
    /// The raw flag bits.
    pub bits: u64,
}

/// The bit marking a module as required.
pub const MODULE_FLAG_REQUIRED: u64 = 1;

/// The bit marking a module as compressed.
pub const MODULE_FLAG_COMPRESSED: u64 = 2;

impl ModuleFlags {
    /// No flags set.
    pub fn empty() -> (r: Self)
        ensures
            r.bits == 0,
    {
        ModuleFlags { bits: 0 }
    }

    /// The flag that makes the bootloader refuse to boot when the module is
    /// not found.
    pub fn required() -> (r: Self)
        ensures
            r.bits == MODULE_FLAG_REQUIRED,
    {
        ModuleFlags { bits: MODULE_FLAG_REQUIRED }
    }

    /// The flag that marks the module as GZ-compressed, honored on response
    /// revision 2 and greater.
    pub fn compressed() -> (r: Self)
        ensures
            r.bits == MODULE_FLAG_COMPRESSED,
    {
        ModuleFlags { bits: MODULE_FLAG_COMPRESSED }
    }

    /// Wrap raw flag bits.
    pub fn from_bits(bits: u64) -> (r: Self)
        ensures
            r.bits == bits,
    {
        ModuleFlags { bits }
    }

    /// The raw flag bits.
    pub fn bits(&self) -> (r: u64)
        ensures
            r == self.bits,
    {
        self.bits
    }

    /// Both sets of flags together.
    pub fn union(self, other: Self) -> (r: Self)
        ensures
            r.bits == self.bits | other.bits,
    {
        ModuleFlags { bits: self.bits | other.bits }
    }

    /// Whether every flag of `other` is also set in `self`.
    pub fn contains(self, other: Self) -> (r: bool)
        ensures
            r == (self.bits & other.bits == other.bits),
    {
        self.bits & other.bits == other.bits
    }
}

/// An internal module the executable asks the bootloader to load, available
/// with module-request revision 1 and greater.
///
/// The path and command line stand for the zero-terminated strings the real
/// request points at; they carry the text without its terminator, so neither
/// may contain a zero byte.
pub struct InternalModule {
    /// The path the bootloader should load the module from.
    pub path: Vec<u8>,
    /// The command line to pass along with the module.
    pub cmdline: Vec<u8>,
    /// The module's flags.
    pub flags: ModuleFlags,
}

impl InternalModule {
    /// What [`InternalModule::new`] and the setters keep true: the texts
    /// carry no terminator of their own.
    pub open spec fn wf(&self) -> bool {
        !self.path@.contains(0) && !self.cmdline@.contains(0)
    }

    /// A module with an empty path, an empty command line and no flags.
    pub fn new() -> (r: Self)
        ensures
            r.path@ == Seq::<u8>::empty(),
            r.cmdline@ == Seq::<u8>::empty(),
            r.flags.bits == 0,
            r.wf(),
    {
        InternalModule { path: Vec::new(), cmdline: Vec::new(), flags: ModuleFlags::empty() }
    }

    /// Set the module's path. Returns the new value.
    pub fn with_path(self, path: Vec<u8>) -> (r: Self)
        requires
            !path@.contains(0),
        ensures
            (r == InternalModule { path, ..self }),
    {
        InternalModule { path, ..self }
    }

    /// Set the module's path. Operates in place.
    pub fn set_path(&mut self, path: Vec<u8>)
        requires
            !path@.contains(0),
        ensures
            (*final(self) == InternalModule { path, ..*old(self) }),
    {
        self.path = path;
    }

    /// Set the module's command line. Returns the new value.
    pub fn with_cmdline(self, cmdline: Vec<u8>) -> (r: Self)
        requires
            !cmdline@.contains(0),
        ensures
            (r == InternalModule { cmdline, ..self }),
    {
        InternalModule { cmdline, ..self }
    }

    /// Set the module's command line. Operates in place.
    pub fn set_cmdline(&mut self, cmdline: Vec<u8>)
        requires
            !cmdline@.contains(0),
        ensures
            (*final(self) == InternalModule { cmdline, ..*old(self) }),
    {
        self.cmdline = cmdline;
    }

    /// Set the module's flags. Returns the new value.
    pub fn with_flags(self, flags: ModuleFlags) -> (r: Self)
        ensures
            (r == InternalModule { flags, ..self }),
    {
        InternalModule { flags, ..self }
    }

    /// Set the module's flags. Operates in place.
    pub fn set_flags(&mut self, flags: ModuleFlags)
        ensures
            (*final(self) == InternalModule { flags, ..*old(self) }),
    {
        self.flags = flags;
    }

    /// The module's path.
    pub fn path(&self) -> (r: &Vec<u8>)
        ensures
            r@ == self.path@,
    {
        &self.path
    }

    /// The module's command line.
    pub fn cmdline(&self) -> (r: &Vec<u8>)
        ensures
            r@ == self.cmdline@,
    {
        &self.cmdline
    }

    /// The module's flags.
    pub fn flags(&self) -> (r: ModuleFlags)
        ensures
            r == self.flags,
    {
        self.flags
    }
}


/// Setters of distinct fields commute: whatever order the path and command
/// line are set in, the module they leave behind is the same. Stated over
/// the functional updates the setters' contracts promise.
pub proof fn lemma_module_setters_commute(m: InternalModule, path: Vec<u8>, cmdline: Vec<u8>)
    ensures
        (InternalModule { cmdline, ..InternalModule { path, ..m } } == InternalModule {
            path,
            ..InternalModule { cmdline, ..m }
        }),
{
}

} // verus!
