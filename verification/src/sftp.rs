//! What an SFTP open asks for: flags, permission bits and the kind of
//! handle, with the three usual combinations.

use vstd::prelude::*;

verus! {

/// One option of an open.
#[derive(Clone, Copy, Debug, PartialEq, Eq, Structural)]
pub enum OpenFlag {
    /// Open for reading.
    Read,
    /// Open for writing.
    Write,
    /// Force all writes to the end of the file.
    Append,
    /// Create the file if there is none.
    Create,
    /// Cut an existing file down to nothing; implies `Create`.
    Truncate,
    /// Fail if the file exists; implies `Create`.
    Exclusive,
}

/// A set of open options, as the bits that go over the wire.
#[derive(Clone, Copy, Debug, PartialEq, Eq, Structural)]
pub struct OpenFlags {
    /// The bits of all options in the set.
    pub bits: u64,
}

/// The kind of handle that an open gives.
#[derive(Clone, Copy, Debug, PartialEq, Eq, Structural)]
pub enum OpenType {
    /// A file, for reading and writing bytes.
    File,
    /// A directory, for reading entries.
    Dir,
}

/// Everything an open needs besides the path.
#[derive(Clone, Copy, Debug, PartialEq, Eq, Structural)]
pub struct OpenRequest {
    /// How to open.
    pub flags: OpenFlags,
    /// The permission bits of a file that the open creates.
    pub mode: i32,
    /// What to open.
    pub open_type: OpenType,
}

/// The permission bits that the convenience opens give a file: `rw-r--r--`.
pub const DEFAULT_FILE_MODE: i32 = 0o644;

/// The bits of one option.
pub open spec fn spec_flag_bits(flag: OpenFlag) -> u64 {
    match flag {
        OpenFlag::Read => 0x01,
        OpenFlag::Write => 0x02,
        OpenFlag::Append => 0x04,
        OpenFlag::Create => 0x08,
        OpenFlag::Truncate => 0x18,
        OpenFlag::Exclusive => 0x28,
    }
}

/// Reads the bits of one option from `ssh2::OpenFlags`: the constant of
/// the same name, through `bits()`. The contract gives the values that the
/// constants are declared with; the two that imply `Create` hold its bit.
#[verifier::external_body]
fn flag_bits(flag: OpenFlag) -> (bits: u64)
    ensures
        bits == spec_flag_bits(flag),
{
    let flags = match flag {
        OpenFlag::Read => ssh2::OpenFlags::READ,
        OpenFlag::Write => ssh2::OpenFlags::WRITE,
        OpenFlag::Append => ssh2::OpenFlags::APPEND,
        OpenFlag::Create => ssh2::OpenFlags::CREATE,
        OpenFlag::Truncate => ssh2::OpenFlags::TRUNCATE,
        OpenFlag::Exclusive => ssh2::OpenFlags::EXCLUSIVE,
    };
    flags.bits() as u64
}

impl OpenFlags {
    /// Whether every bit of `flag` is set.
    pub open spec fn spec_contains(self, flag: OpenFlag) -> bool {
        self.bits & spec_flag_bits(flag) == spec_flag_bits(flag)
    }

    /// The set of one option.
    pub fn of(flag: OpenFlag) -> (flags: OpenFlags)
        ensures
            flags.bits == spec_flag_bits(flag),
    {
        OpenFlags { bits: flag_bits(flag) }
    }

    /// The set of the options of both sets.
    pub fn union(self, other: OpenFlags) -> (flags: OpenFlags)
        ensures
            flags.bits == self.bits | other.bits,
    {
        OpenFlags { bits: self.bits | other.bits }
    }

    /// Whether the set holds `flag`, that is every bit of it.
    pub fn contains(self, flag: OpenFlag) -> (held: bool)
        ensures
            held == self.spec_contains(flag),
    {
        let bits = flag_bits(flag);
        self.bits & bits == bits
    }
}

impl OpenRequest {
    /// An open with explicit flags, permission bits and kind.
    pub fn open_mode(flags: OpenFlags, mode: i32, open_type: OpenType) -> (request: OpenRequest)
        ensures
            request == (OpenRequest { flags, mode, open_type }),
    {
        OpenRequest { flags, mode, open_type }
    }

    /// Opens a file for reading.
    pub fn open() -> (request: OpenRequest)
        ensures
            request.flags.bits == 0x01,
            request.mode == 0o644,
            request.open_type == OpenType::File,
    {
        OpenRequest::open_mode(OpenFlags::of(OpenFlag::Read), DEFAULT_FILE_MODE, OpenType::File)
    }

    /// Opens a file for writing only, created if there is none and cut
    /// down to nothing if there is one.
    pub fn create() -> (request: OpenRequest)
        ensures
            request.flags.bits == 0x1a,
            request.flags.spec_contains(OpenFlag::Write),
            request.flags.spec_contains(OpenFlag::Truncate),
            request.flags.spec_contains(OpenFlag::Create),
            !request.flags.spec_contains(OpenFlag::Read),
            request.mode == 0o644,
            request.open_type == OpenType::File,
    {
        let flags = OpenFlags::of(OpenFlag::Write).union(OpenFlags::of(OpenFlag::Truncate));
        assert(0x02u64 | 0x18u64 == 0x1au64) by (bit_vector);
        assert(0x1au64 & 0x02u64 == 0x02u64) by (bit_vector);
        assert(0x1au64 & 0x18u64 == 0x18u64) by (bit_vector);
        assert(0x1au64 & 0x08u64 == 0x08u64) by (bit_vector);
        assert(0x1au64 & 0x01u64 == 0x00u64) by (bit_vector);
        OpenRequest::open_mode(flags, DEFAULT_FILE_MODE, OpenType::File)
    }

    /// Opens a directory for reading its entries.
    pub fn opendir() -> (request: OpenRequest)
        ensures
            request.flags.bits == 0x01,
            request.mode == 0,
            request.open_type == OpenType::Dir,
    {
        OpenRequest::open_mode(OpenFlags::of(OpenFlag::Read), 0, OpenType::Dir)
    }
}

} // verus!
