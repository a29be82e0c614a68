//! File system option flags, seek positions and error codes of the storage service.

use vstd::prelude::*;

verus! {

/// Access mode flag: read access.
pub const FSAM_READ: u8 = 1;

/// Access mode flag: write access.
pub const FSAM_WRITE: u8 = 2;

/// Open mode flag: open the file, fail if it doesn't exist.
pub const FSOM_OPEN_EXISTING: u8 = 1;

/// Open mode flag: open the file, create it if it doesn't exist.
pub const FSOM_OPEN_ALWAYS: u8 = 2;

/// Open mode flag: open the file, create it if it doesn't exist, and put the read/write
/// position at its end.
pub const FSOM_OPEN_APPEND: u8 = 4;

/// Open mode flag: create a new file, fail if it exists.
pub const FSOM_CREATE_NEW: u8 = 8;

/// Open mode flag: create a new file, truncate it to zero size if it exists.
pub const FSOM_CREATE_ALWAYS: u8 = 16;

/// Stream and file system related error type.
#[derive(Clone, Copy, Debug, PartialEq, Eq, Structural)]
pub enum Error {
    Ok_,
    NotReady,
    Exists,
    NotExists,
    InvalidParameter,
    Denied,
    InvalidName,
    Internal,
    NotImplemented,
    AlreadyOpen,
}

impl Error {
    /// The storage service's number for this error.
    pub open spec fn raw(self) -> u8 {
        match self {
            Error::Ok_ => 0,
            Error::NotReady => 1,
            Error::Exists => 2,
            Error::NotExists => 3,
            Error::InvalidParameter => 4,
            Error::Denied => 5,
            Error::InvalidName => 6,
            Error::Internal => 7,
            Error::NotImplemented => 8,
            Error::AlreadyOpen => 9,
        }
    }

    /// Returns the storage service's number for this error.
    pub fn to_sys(&self) -> (r: u8)
        ensures
            r == self.raw(),
    {
        match self {
            Error::Ok_ => 0,
            Error::NotReady => 1,
            Error::Exists => 2,
            Error::NotExists => 3,
            Error::InvalidParameter => 4,
            Error::Denied => 5,
            Error::InvalidName => 6,
            Error::Internal => 7,
            Error::NotImplemented => 8,
            Error::AlreadyOpen => 9,
        }
    }

    /// Returns the error with the storage service's number `err`.
    ///
    /// The service reports no other numbers than those of the errors above.
    pub fn from_sys(err: u8) -> (r: Error)
        requires
            err <= 9,
        ensures
            r.raw() == err,
    {
        match err {
            0 => Error::Ok_,
            1 => Error::NotReady,
            2 => Error::Exists,
            3 => Error::NotExists,
            4 => Error::InvalidParameter,
            5 => Error::Denied,
            6 => Error::InvalidName,
            7 => Error::Internal,
            8 => Error::NotImplemented,
            _ => Error::AlreadyOpen,
        }
    }
}

/// Every error survives the trip to the service's number and back.
pub proof fn lemma_error_round_trip(e: Error, other: Error)
    ensures
        e.raw() <= 9,
        e.raw() == other.raw() ==> e == other,
{
}

/// Enumeration of possible methods to seek within an I/O object.
#[derive(Clone, Copy, Debug, PartialEq, Eq, Structural)]
pub enum SeekFrom {
    Start(i32),
    End(i32),
    Current(i32),
}

/// The firmware's stream offset kind: from the current position.
pub const STREAM_OFFSET_FROM_CURRENT: u8 = 0;
/// The firmware's stream offset kind: from the start of the stream.
pub const STREAM_OFFSET_FROM_START: u8 = 1;
/// The firmware's stream offset kind: from the end of the stream.
pub const STREAM_OFFSET_FROM_END: u8 = 2;

impl SeekFrom {
    /// The firmware's offset kind and the offset that this seek stands for.
    pub open spec fn spec_stream_offset(self) -> (u8, i32) {
        match self {
            SeekFrom::Start(n) => (STREAM_OFFSET_FROM_START, n),
            SeekFrom::End(n) => (STREAM_OFFSET_FROM_END, n),
            SeekFrom::Current(n) => (STREAM_OFFSET_FROM_CURRENT, n),
        }
    }

    /// Returns the firmware's offset kind and the offset for this seek.
    pub fn stream_offset(self) -> (r: (u8, i32))
        ensures
            r == self.spec_stream_offset(),
    {
        match self {
            SeekFrom::Start(n) => (STREAM_OFFSET_FROM_START, n),
            SeekFrom::End(n) => (STREAM_OFFSET_FROM_END, n),
            SeekFrom::Current(n) => (STREAM_OFFSET_FROM_CURRENT, n),
        }
    }
}

/// Options for opening a file: the access mode flags and the open mode flags.
#[derive(Clone, Copy, Debug, PartialEq, Eq, Structural)]
pub struct OpenOptions(pub u8, pub u8);

/// `flags` with `flag` set or cleared.
pub open spec fn with_flag(flags: u8, flag: u8, set: bool) -> u8 {
    if set {
        flags | flag
    } else {
        flags & !flag
    }
}

fn update_flag(flags: u8, flag: u8, set: bool) -> (r: u8)
    ensures
        r == with_flag(flags, flag, set),
{
    if set {
        flags | flag
    } else {
        flags & !flag
    }
}

impl OpenOptions {
    /// Options with no access and no open mode flags.
    pub fn new() -> (r: OpenOptions)
        ensures
            r == OpenOptions(0, 0),
    {
        OpenOptions(0, 0)
    }

    /// Read access.
    pub fn read(self, set: bool) -> (r: OpenOptions)
        ensures
            r == OpenOptions(with_flag(self.0, FSAM_READ, set), self.1),
    {
        OpenOptions(update_flag(self.0, FSAM_READ, set), self.1)
    }

    /// Write access.
    pub fn write(self, set: bool) -> (r: OpenOptions)
        ensures
            r == OpenOptions(with_flag(self.0, FSAM_WRITE, set), self.1),
    {
        OpenOptions(update_flag(self.0, FSAM_WRITE, set), self.1)
    }

    /// Open file, fail if file doesn't exist.
    pub fn open_existing(self, set: bool) -> (r: OpenOptions)
        ensures
            r == OpenOptions(self.0, with_flag(self.1, FSOM_OPEN_EXISTING, set)),
    {
        OpenOptions(self.0, update_flag(self.1, FSOM_OPEN_EXISTING, set))
    }

    /// Open file. Create new file if not exist.
    pub fn open_always(self, set: bool) -> (r: OpenOptions)
        ensures
            r == OpenOptions(self.0, with_flag(self.1, FSOM_OPEN_ALWAYS, set)),
    {
        OpenOptions(self.0, update_flag(self.1, FSOM_OPEN_ALWAYS, set))
    }

    /// Open file. Create new file if not exist. Set R/W pointer to EOF.
    pub fn open_append(self, set: bool) -> (r: OpenOptions)
        ensures
            r == OpenOptions(self.0, with_flag(self.1, FSOM_OPEN_APPEND, set)),
    {
        OpenOptions(self.0, update_flag(self.1, FSOM_OPEN_APPEND, set))
    }

    /// Creates a new file. Fails if the file exists.
    pub fn create_new(self, set: bool) -> (r: OpenOptions)
        ensures
            r == OpenOptions(self.0, with_flag(self.1, FSOM_CREATE_NEW, set)),
    {
        OpenOptions(self.0, update_flag(self.1, FSOM_CREATE_NEW, set))
    }

    /// Creates a new file. If file exists, truncate to zero size.
    pub fn create_always(self, set: bool) -> (r: OpenOptions)
        ensures
            r == OpenOptions(self.0, with_flag(self.1, FSOM_CREATE_ALWAYS, set)),
    {
        OpenOptions(self.0, update_flag(self.1, FSOM_CREATE_ALWAYS, set))
    }
}

/// Setting a flag makes it present and clearing it makes it absent, while every other bit
/// stays as it was; setting or clearing twice is the same as doing it once.
pub proof fn lemma_flag_update(flags: u8, flag: u8, other: u8, set: bool)
    requires
        flag & other == 0,
    ensures
        with_flag(flags, flag, set) & flag == (if set { flag } else { 0 }),
        with_flag(flags, flag, set) & other == flags & other,
        with_flag(with_flag(flags, flag, set), flag, set) == with_flag(flags, flag, set),
{
    if set {
        assert((flags | flag) & flag == flag) by (bit_vector);
        assert(flag & other == 0 ==> (flags | flag) & other == flags & other) by (bit_vector);
        assert((flags | flag) | flag == flags | flag) by (bit_vector);
    } else {
        assert((flags & !flag) & flag == 0) by (bit_vector);
        assert(flag & other == 0 ==> (flags & !flag) & other == flags & other) by (bit_vector);
        assert((flags & !flag) & !flag == flags & !flag) by (bit_vector);
    }
}

/// The firmware's numbers for every [`Error`], one by one, as the firmware's
/// enumeration lists them.
pub proof fn lemma_error_numbers()
    ensures
        Error::Ok_.raw() == 0,
        Error::NotReady.raw() == 1,
        Error::Exists.raw() == 2,
        Error::NotExists.raw() == 3,
        Error::InvalidParameter.raw() == 4,
        Error::Denied.raw() == 5,
        Error::InvalidName.raw() == 6,
        Error::Internal.raw() == 7,
        Error::NotImplemented.raw() == 8,
        Error::AlreadyOpen.raw() == 9,
{
}

} // verus!
