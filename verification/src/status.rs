//! The status vocabulary of the host's calling convention.
//!
//! The numeric values are fixed by the host contract (the `SQLITE_*` result
//! codes in `sqlite3.h`); they are not chosen by this crate.

use vstd::prelude::*;

verus! {

/// `SQLITE_ACCESS_EXISTS`: the check-access flavor asking for existence.
pub const ACCESS_EXISTS: i32 = 0;

/// `SQLITE_ACCESS_READWRITE`: the flavor asking for read-write access.
pub const ACCESS_READWRITE: i32 = 1;

/// `SQLITE_ACCESS_READ`: the flavor asking for read access.
pub const ACCESS_READ: i32 = 2;

/// `SQLITE_IOCAP_ATOMIC`: writes of any size are atomic.
pub const IOCAP_ATOMIC: i32 = 0x1;

/// `SQLITE_IOCAP_SAFE_APPEND`: data is appended before the size is extended.
pub const IOCAP_SAFE_APPEND: i32 = 0x200;

/// `SQLITE_IOCAP_SEQUENTIAL`: data reaches storage in write-call order.
pub const IOCAP_SEQUENTIAL: i32 = 0x400;

/// `SQLITE_IOCAP_POWERSAFE_OVERWRITE`: a crash changes only written bytes.
pub const IOCAP_POWERSAFE_OVERWRITE: i32 = 0x1000;

/// A status code of the host's fixed vocabulary, as the dispatch layer
/// returns it to the engine. [`Status::code`] gives the numeric value the
/// host contract assigns to it.
#[derive(Debug, Clone, Copy, PartialEq, Eq, Structural)]
pub enum Status {
    /// `SQLITE_OK`: the operation succeeded.
    Okay,
    /// `SQLITE_ERROR`: a generic failure.
    Error,
    /// `SQLITE_DELETE`: a delete operation failed.
    DeleteFailed,
    /// `SQLITE_NOTFOUND`: the requested control code is not implemented.
    NotFound,
    /// `SQLITE_CANTOPEN`: the object could not be opened.
    CantOpen,
    /// `SQLITE_IOERR_READ`: a read failed.
    IoErrRead,
    /// `SQLITE_IOERR_SHORT_READ`: a read ended before the requested length;
    /// expected, recoverable, handled by the engine itself.
    IoErrShortRead,
    /// `SQLITE_IOERR_WRITE`: a write failed.
    IoErrWrite,
    /// `SQLITE_IOERR_FSYNC`: a durability flush failed.
    IoErrFsync,
    /// `SQLITE_IOERR_TRUNCATE`: a truncate failed.
    IoErrTruncate,
    /// `SQLITE_IOERR_FSTAT`: a size query failed.
    IoErrFstat,
    /// `SQLITE_IOERR_UNLOCK`: an unlock failed.
    IoErrUnlock,
    /// `SQLITE_IOERR_ACCESS`: a check-access query failed.
    IoErrAccess,
    /// `SQLITE_IOERR_CHECKRESERVEDLOCK`: a reserved-lock query failed.
    IoErrCheckReservedLock,
    /// `SQLITE_IOERR_LOCK`: a lock failed.
    IoErrLock,
    /// `SQLITE_IOERR_CLOSE`: a close (or handle resolution) failed.
    IoErrClose,
    /// `SQLITE_IOERR_SHMLOCK`: shared-memory locking is unsupported.
    IoErrShmLock,
    /// `SQLITE_IOERR_SHMMAP`: shared-memory mapping is unsupported.
    IoErrShmMap,
}

impl Status {
    /// The numeric value the host contract assigns to this status.
    pub open spec fn spec_code(self) -> i32 {
        match self {
            Status::Okay => 0,
            Status::Error => 1,
            Status::DeleteFailed => 9,
            Status::NotFound => 12,
            Status::CantOpen => 14,
            Status::IoErrRead => 266,
            Status::IoErrShortRead => 522,
            Status::IoErrWrite => 778,
            Status::IoErrFsync => 1034,
            Status::IoErrTruncate => 1546,
            Status::IoErrFstat => 1802,
            Status::IoErrUnlock => 2058,
            Status::IoErrAccess => 3338,
            Status::IoErrCheckReservedLock => 3594,
            Status::IoErrLock => 3850,
            Status::IoErrClose => 4106,
            Status::IoErrShmLock => 5130,
            Status::IoErrShmMap => 5386,
        }
    }

    /// Encode the status as the small integer the engine expects.
    pub fn code(self) -> (r: i32)
        ensures
            r == self.spec_code(),
    {
        match self {
            Status::Okay => 0,
            Status::Error => 1,
            Status::DeleteFailed => 9,
            Status::NotFound => 12,
            Status::CantOpen => 14,
            Status::IoErrRead => 266,
            Status::IoErrShortRead => 522,
            Status::IoErrWrite => 778,
            Status::IoErrFsync => 1034,
            Status::IoErrTruncate => 1546,
            Status::IoErrFstat => 1802,
            Status::IoErrUnlock => 2058,
            Status::IoErrAccess => 3338,
            Status::IoErrCheckReservedLock => 3594,
            Status::IoErrLock => 3850,
            Status::IoErrClose => 4106,
            Status::IoErrShmLock => 5130,
            Status::IoErrShmMap => 5386,
        }
    }
}

} // verus!
