//! Cross-checks of every numeric constant against the engine's own
//! bindings: the values are dictated by the host contract.

use libsqlite3_sys as ffi;
use sqlite_vfs::flags;
use sqlite_vfs::fs_ops::MAX_PATH_LENGTH;
use sqlite_vfs::status::{
    Status, ACCESS_EXISTS, ACCESS_READ, ACCESS_READWRITE, IOCAP_ATOMIC,
    IOCAP_POWERSAFE_OVERWRITE, IOCAP_SAFE_APPEND, IOCAP_SEQUENTIAL,
};

#[test]
fn open_flag_constants_match_engine() {
    assert_eq!(flags::OPEN_READONLY, ffi::SQLITE_OPEN_READONLY);
    assert_eq!(flags::OPEN_READWRITE, ffi::SQLITE_OPEN_READWRITE);
    assert_eq!(flags::OPEN_CREATE, ffi::SQLITE_OPEN_CREATE);
    assert_eq!(flags::OPEN_DELETEONCLOSE, ffi::SQLITE_OPEN_DELETEONCLOSE);
    assert_eq!(flags::OPEN_EXCLUSIVE, ffi::SQLITE_OPEN_EXCLUSIVE);
    assert_eq!(flags::OPEN_MAIN_DB, ffi::SQLITE_OPEN_MAIN_DB);
    assert_eq!(flags::OPEN_TEMP_DB, ffi::SQLITE_OPEN_TEMP_DB);
    assert_eq!(flags::OPEN_TRANSIENT_DB, ffi::SQLITE_OPEN_TRANSIENT_DB);
    assert_eq!(flags::OPEN_MAIN_JOURNAL, ffi::SQLITE_OPEN_MAIN_JOURNAL);
    assert_eq!(flags::OPEN_TEMP_JOURNAL, ffi::SQLITE_OPEN_TEMP_JOURNAL);
    assert_eq!(flags::OPEN_SUBJOURNAL, ffi::SQLITE_OPEN_SUBJOURNAL);
    assert_eq!(flags::OPEN_SUPER_JOURNAL, ffi::SQLITE_OPEN_SUPER_JOURNAL);
    assert_eq!(flags::OPEN_WAL, ffi::SQLITE_OPEN_WAL);
}

#[test]
fn status_codes_match_engine() {
    assert_eq!(Status::Okay.code(), ffi::SQLITE_OK);
    assert_eq!(Status::Error.code(), ffi::SQLITE_ERROR);
    assert_eq!(Status::DeleteFailed.code(), ffi::SQLITE_DELETE);
    assert_eq!(Status::NotFound.code(), ffi::SQLITE_NOTFOUND);
    assert_eq!(Status::CantOpen.code(), ffi::SQLITE_CANTOPEN);
    assert_eq!(Status::IoErrRead.code(), ffi::SQLITE_IOERR_READ);
    assert_eq!(Status::IoErrShortRead.code(), ffi::SQLITE_IOERR_SHORT_READ);
    assert_eq!(Status::IoErrWrite.code(), ffi::SQLITE_IOERR_WRITE);
    assert_eq!(Status::IoErrFsync.code(), ffi::SQLITE_IOERR_FSYNC);
    assert_eq!(Status::IoErrTruncate.code(), ffi::SQLITE_IOERR_TRUNCATE);
    assert_eq!(Status::IoErrFstat.code(), ffi::SQLITE_IOERR_FSTAT);
    assert_eq!(Status::IoErrUnlock.code(), ffi::SQLITE_IOERR_UNLOCK);
    assert_eq!(Status::IoErrAccess.code(), ffi::SQLITE_IOERR_ACCESS);
    assert_eq!(
        Status::IoErrCheckReservedLock.code(),
        ffi::SQLITE_IOERR_CHECKRESERVEDLOCK
    );
    assert_eq!(Status::IoErrLock.code(), ffi::SQLITE_IOERR_LOCK);
    assert_eq!(Status::IoErrClose.code(), ffi::SQLITE_IOERR_CLOSE);
    assert_eq!(Status::IoErrShmLock.code(), ffi::SQLITE_IOERR_SHMLOCK);
    assert_eq!(Status::IoErrShmMap.code(), ffi::SQLITE_IOERR_SHMMAP);
}

#[test]
fn access_flavors_match_engine() {
    assert_eq!(ACCESS_EXISTS, ffi::SQLITE_ACCESS_EXISTS);
    assert_eq!(ACCESS_READ, ffi::SQLITE_ACCESS_READ);
    assert_eq!(ACCESS_READWRITE, ffi::SQLITE_ACCESS_READWRITE);
}

#[test]
fn device_capability_bits_match_engine() {
    assert_eq!(IOCAP_ATOMIC, ffi::SQLITE_IOCAP_ATOMIC);
    assert_eq!(IOCAP_SAFE_APPEND, ffi::SQLITE_IOCAP_SAFE_APPEND);
    assert_eq!(IOCAP_SEQUENTIAL, ffi::SQLITE_IOCAP_SEQUENTIAL);
    assert_eq!(IOCAP_POWERSAFE_OVERWRITE, ffi::SQLITE_IOCAP_POWERSAFE_OVERWRITE);
}

#[test]
fn max_path_length_is_the_registration_limit() {
    assert_eq!(MAX_PATH_LENGTH, 512);
}
