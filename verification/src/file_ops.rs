//! The per-file state block and the file-level dispatch operations the
//! engine invokes on an open file.
//!
//! Every operation first clears the error channel, then resolves the
//! embedded file instance; a handle whose fields are already cleared is a
//! fatal protocol violation, not a normal failure.

use vstd::prelude::*;
use crate::error::{null_ptr_error, null_ptr_message, ErrorChannel, VfsError, VfsErrorKind};
use crate::status::{
    Status, IOCAP_ATOMIC, IOCAP_POWERSAFE_OVERWRITE, IOCAP_SAFE_APPEND, IOCAP_SEQUENTIAL,
};
use crate::vfs::{truncate_model, write_model, File};

verus! {

/// The per-open-file state: a copy of the path the object was opened
/// under, and the application's file instance. Both fields are populated
/// together on open and cleared together on close; a block with cleared
/// fields must never be dispatched to again.
pub struct FileHandle<F: File> {
    /// The path the object was opened under.
    pub name: Option<String>,
    /// The application's file instance.
    pub file: Option<F>,
}

impl<F: File> FileHandle<F> {
    /// The block invariant: the path and the file instance are either both
    /// present (open) or both cleared (never opened, or already closed).
    pub open spec fn wf(&self) -> bool {
        self.name is Some <==> self.file is Some
    }

    /// Whether the block currently holds an open file.
    pub fn is_open(&self) -> (r: bool)
        ensures
            r == (self.file is Some),
    {
        self.file.is_some()
    }
}

/// Release the path and the file instance exactly once, clear both fields,
/// and leave the error channel clear.
///
/// After this call the block holds nothing; dispatching to it again is the
/// caller's protocol violation.
pub fn close<F: File>(handle: &mut FileHandle<F>, channel: &mut ErrorChannel) -> (st: Status)
    ensures
        st == Status::Okay,
        final(handle).name is None,
        final(handle).file is None,
        final(channel)@ is None,
{
    channel.clear();
    handle.name = None;
    handle.file = None;
    Status::Okay
}

/// Translate the file's response to a read into a status: success passes
/// the bytes through, end-of-data becomes the short-read status without
/// depositing anything, and any other failure is deposited and reported as
/// a read error.
pub fn read_outcome(channel: &mut ErrorChannel, r: Result<Vec<u8>, VfsError>) -> (out: (
    Status,
    Option<Vec<u8>>,
))
    ensures
        r matches Ok(buf) ==> out.0 == Status::Okay && out.1 == Some(buf) && final(channel)@ == old(channel)@,
        (r matches Err(e) && e.kind == VfsErrorKind::UnexpectedEof) ==> out.0
            == Status::IoErrShortRead && out.1 is None && final(channel)@ == old(channel)@,
        r matches Err(e) ==> (e.kind != VfsErrorKind::UnexpectedEof ==> out.0 == Status::IoErrRead
            && out.1 is None && final(channel)@ == Some(e)),
{
    match r {
        Ok(buf) => (Status::Okay, Some(buf)),
        Err(e) => {
            if e.kind == VfsErrorKind::UnexpectedEof {
                (Status::IoErrShortRead, None)
            } else {
                channel.set(e);
                (Status::IoErrRead, None)
            }
        },
    }
}

/// Read `amt` bytes at absolute `offset` from the embedded file.
///
/// End-of-data is reported as the short-read status and leaves the channel
/// clear: it is expected behavior the engine handles itself.
pub fn read<F: File>(
    handle: &mut FileHandle<F>,
    channel: &mut ErrorChannel,
    offset: u64,
    amt: usize,
) -> (r: (Status, Option<Vec<u8>>))
    ensures
        final(handle).name == old(handle).name,
        old(handle).wf() ==> final(handle).wf(),
        old(handle).file is None ==> r.0 == Status::IoErrClose && r.1 is None && final(handle).file is None && final(channel)@ is None,
        old(handle).file matches Some(f) ==> final(handle).file matches Some(f2) && f2.data()
            == f.data(),
        r.0 == Status::Okay ==> (r.1 matches Some(buf) && old(handle).file matches Some(f) && offset
            + amt <= f.data().len() && buf@ == f.data().subrange(offset as int, offset + amt)
            && final(channel)@ is None),
        r.0 == Status::IoErrShortRead ==> (old(handle).file matches Some(f) && offset + amt
            > f.data().len() && r.1 is None && final(channel)@ is None),
        r.0 == Status::IoErrRead ==> final(channel)@ is Some && r.1 is None,
        r.0 == Status::IoErrClose ==> old(handle).file is None,
        r.0 == Status::Okay || r.0 == Status::IoErrShortRead || r.0 == Status::IoErrRead || r.0
            == Status::IoErrClose,
{
    channel.clear();
    match handle.file.take() {
        None => (Status::IoErrClose, None),
        Some(mut f) => {
            let res = f.read_at(offset, amt);
            handle.file = Some(f);
            read_outcome(channel, res)
        },
    }
}

/// Translate the file's response to a write into a status: any failure is
/// deposited and reported as a write error.
pub fn write_outcome(channel: &mut ErrorChannel, r: Result<(), VfsError>) -> (st: Status)
    ensures
        r is Ok ==> st == Status::Okay && final(channel)@ == old(channel)@,
        r matches Err(e) ==> st == Status::IoErrWrite && final(channel)@ == Some(e),
{
    match r {
        Ok(_) => Status::Okay,
        Err(e) => {
            channel.set(e);
            Status::IoErrWrite
        },
    }
}

/// Write all of `bytes` at absolute `offset` through the embedded file.
pub fn write<F: File>(
    handle: &mut FileHandle<F>,
    channel: &mut ErrorChannel,
    offset: u64,
    bytes: &Vec<u8>,
) -> (st: Status)
    ensures
        final(handle).name == old(handle).name,
        old(handle).wf() ==> final(handle).wf(),
        old(handle).file is None ==> st == Status::IoErrWrite && final(handle).file is None && (
        final(channel)@ matches Some(e) && e.message@ == null_ptr_message()),
        old(handle).file is Some ==> final(handle).file is Some,
        st == Status::Okay ==> (old(handle).file matches Some(f) && final(handle).file matches Some(f2) && f2.data() == write_model(f.data(), offset as nat, bytes@)
            && final(channel)@ is None),
        st == Status::Okay || st == Status::IoErrWrite,
        st == Status::IoErrWrite ==> final(channel)@ is Some,
{
    channel.clear();
    match handle.file.take() {
        None => {
            channel.set(null_ptr_error());
            Status::IoErrWrite
        },
        Some(mut f) => {
            let res = f.write_at(offset, bytes);
            handle.file = Some(f);
            write_outcome(channel, res)
        },
    }
}

/// Translate the file's response to a truncate into a status: any failure
/// is deposited and reported with the truncate-specific status.
pub fn truncate_outcome(channel: &mut ErrorChannel, r: Result<(), VfsError>) -> (st: Status)
    ensures
        r is Ok ==> st == Status::Okay && final(channel)@ == old(channel)@,
        r matches Err(e) ==> st == Status::IoErrTruncate && final(channel)@ == Some(e),
{
    match r {
        Ok(_) => Status::Okay,
        Err(e) => {
            channel.set(e);
            Status::IoErrTruncate
        },
    }
}

/// Truncate the embedded file to `size` bytes.
///
/// A cleared block is reported with the fsync-specific status, the
/// narrowest code the resolution step owns here; only a failure of the
/// truncate itself gets the truncate-specific status.
pub fn truncate<F: File>(
    handle: &mut FileHandle<F>,
    channel: &mut ErrorChannel,
    size: u64,
) -> (st: Status)
    ensures
        final(handle).name == old(handle).name,
        old(handle).wf() ==> final(handle).wf(),
        old(handle).file is None ==> st == Status::IoErrFsync && final(handle).file is None && (
        final(channel)@ matches Some(e) && e.message@ == null_ptr_message()),
        old(handle).file is Some ==> final(handle).file is Some,
        st == Status::Okay ==> (old(handle).file matches Some(f) && final(handle).file matches Some(f2) && f2.data() == truncate_model(f.data(), size as nat) && final(channel)@ is None),
        st == Status::IoErrFsync ==> old(handle).file is None,
        st == Status::Okay || st == Status::IoErrTruncate || st == Status::IoErrFsync,
        st != Status::Okay ==> final(channel)@ is Some,
{
    channel.clear();
    match handle.file.take() {
        None => {
            channel.set(null_ptr_error());
            Status::IoErrFsync
        },
        Some(mut f) => {
            let res = f.truncate(size);
            handle.file = Some(f);
            truncate_outcome(channel, res)
        },
    }
}

/// Translate the file's response to a flush into a status: any failure is
/// deposited and reported with the fsync-specific status.
pub fn sync_outcome(channel: &mut ErrorChannel, r: Result<(), VfsError>) -> (st: Status)
    ensures
        r is Ok ==> st == Status::Okay && final(channel)@ == old(channel)@,
        r matches Err(e) ==> st == Status::IoErrFsync && final(channel)@ == Some(e),
{
    match r {
        Ok(_) => Status::Okay,
        Err(e) => {
            channel.set(e);
            Status::IoErrFsync
        },
    }
}

/// Flush the embedded file's contents to durable storage.
pub fn sync<F: File>(handle: &mut FileHandle<F>, channel: &mut ErrorChannel, _flags: i32) -> (st:
    Status)
    ensures
        final(handle).name == old(handle).name,
        old(handle).wf() ==> final(handle).wf(),
        old(handle).file is None ==> st == Status::IoErrFsync && final(handle).file is None && (
        final(channel)@ matches Some(e) && e.message@ == null_ptr_message()),
        old(handle).file matches Some(f) ==> final(handle).file matches Some(f2) && f2.data()
            == f.data(),
        st == Status::Okay || st == Status::IoErrFsync,
        st == Status::Okay ==> final(channel)@ is None,
        st != Status::Okay ==> final(channel)@ is Some,
{
    channel.clear();
    match handle.file.take() {
        None => {
            channel.set(null_ptr_error());
            Status::IoErrFsync
        },
        Some(mut f) => {
            let res = f.flush();
            handle.file = Some(f);
            sync_outcome(channel, res)
        },
    }
}

/// Translate the file's response to a size query into a status and the
/// value for the caller's output slot; a missing slot is a protocol
/// violation reported with the fstat-specific status.
pub fn file_size_outcome(
    channel: &mut ErrorChannel,
    out_slot_present: bool,
    r: Result<u64, VfsError>,
) -> (out: (Status, Option<u64>))
    ensures
        r matches Err(e) ==> out.0 == Status::IoErrFstat && out.1 is None && final(channel)@
            == Some(e),
        (r matches Ok(n) && !out_slot_present) ==> out.0 == Status::IoErrFstat && out.1 is None && (
        final(channel)@ matches Some(e2) && e2.message@ == null_ptr_message()),
        r matches Ok(n) ==> (out_slot_present ==> out.0 == Status::Okay && out.1 == Some(n)
            && final(channel)@ == old(channel)@),
{
    match r {
        Err(e) => {
            channel.set(e);
            (Status::IoErrFstat, None)
        },
        Ok(n) => {
            if out_slot_present {
                (Status::Okay, Some(n))
            } else {
                channel.set(null_ptr_error());
                (Status::IoErrFstat, None)
            }
        },
    }
}

/// Query the embedded file's current size, to be written into the caller's
/// output slot.
pub fn file_size<F: File>(
    handle: &mut FileHandle<F>,
    channel: &mut ErrorChannel,
    out_slot_present: bool,
) -> (r: (Status, Option<u64>))
    ensures
        final(handle).name == old(handle).name,
        old(handle).wf() ==> final(handle).wf(),
        old(handle).file is None ==> r.0 == Status::IoErrFstat && r.1 is None && final(handle).file is None && (final(channel)@ matches Some(e) && e.message@ == null_ptr_message()),
        old(handle).file matches Some(f) ==> final(handle).file matches Some(f2) && f2.data()
            == f.data(),
        r.0 == Status::Okay ==> (r.1 matches Some(n) && old(handle).file matches Some(f) && n as nat
            == f.data().len() && out_slot_present && final(channel)@ is None),
        r.0 == Status::Okay || r.0 == Status::IoErrFstat,
        r.0 != Status::Okay ==> final(channel)@ is Some && r.1 is None,
{
    channel.clear();
    match handle.file.take() {
        None => {
            channel.set(null_ptr_error());
            (Status::IoErrFstat, None)
        },
        Some(f) => {
            let res = f.file_size();
            handle.file = Some(f);
            file_size_outcome(channel, out_slot_present, res)
        },
    }
}

/// Take a lock on the file: no mutual exclusion is implemented, so the
/// operation always succeeds after clearing the channel.
pub fn lock(channel: &mut ErrorChannel, _e_lock: i32) -> (st: Status)
    ensures
        st == Status::Okay,
        final(channel)@ is None,
{
    channel.clear();
    Status::Okay
}

/// Release a lock on the file: always succeeds, as no lock is ever held.
pub fn unlock(channel: &mut ErrorChannel, _e_lock: i32) -> (st: Status)
    ensures
        st == Status::Okay,
        final(channel)@ is None,
{
    channel.clear();
    Status::Okay
}

/// Ask whether another handle holds a reserved lock: always answers "not
/// reserved", since no real locking is implemented. A missing output slot
/// is a protocol violation.
pub fn check_reserved_lock(channel: &mut ErrorChannel, out_slot_present: bool) -> (r: (
    Status,
    Option<bool>,
))
    ensures
        out_slot_present ==> r.0 == Status::Okay && r.1 == Some(false) && final(channel)@ is None,
        !out_slot_present ==> r.0 == Status::IoErrCheckReservedLock && r.1 is None && (final(channel)@ matches Some(e) && e.message@ == null_ptr_message()),
{
    channel.clear();
    if out_slot_present {
        (Status::Okay, Some(false))
    } else {
        channel.set(null_ptr_error());
        (Status::IoErrCheckReservedLock, None)
    }
}

/// Handle a custom control code: none is implemented, so every code is
/// answered with the not-found status.
pub fn file_control(channel: &mut ErrorChannel, _op: i32) -> (st: Status)
    ensures
        st == Status::NotFound,
        final(channel)@ is None,
{
    channel.clear();
    Status::NotFound
}

/// The sector size reported for every file.
pub fn sector_size(channel: &mut ErrorChannel) -> (r: i32)
    ensures
        r == 1024,
        final(channel)@ is None,
{
    channel.clear();
    1024
}

/// The device-characteristics bitmask reported for every file: atomic
/// writes, power-safe overwrite, safe append and sequential write order.
/// These are contractual promises about any [`File`] implementation
/// registered through this crate.
pub fn device_characteristics(channel: &mut ErrorChannel) -> (r: i32)
    ensures
        r == IOCAP_ATOMIC | IOCAP_POWERSAFE_OVERWRITE | IOCAP_SAFE_APPEND | IOCAP_SEQUENTIAL,
        final(channel)@ is None,
{
    channel.clear();
    IOCAP_ATOMIC | IOCAP_POWERSAFE_OVERWRITE | IOCAP_SAFE_APPEND | IOCAP_SEQUENTIAL
}

/// Map a shared-memory region: unsupported, reported as a map failure.
pub fn shm_map(channel: &mut ErrorChannel, _region: i32, _size: i32, _extend: bool) -> (st: Status)
    ensures
        st == Status::IoErrShmMap,
        final(channel)@ is None,
{
    channel.clear();
    Status::IoErrShmMap
}

/// Lock a shared-memory segment: unsupported, reported as a lock failure.
pub fn shm_lock(channel: &mut ErrorChannel, _offset: i32, _n: i32, _flags: i32) -> (st: Status)
    ensures
        st == Status::IoErrShmLock,
        final(channel)@ is None,
{
    channel.clear();
    Status::IoErrShmLock
}

/// Memory barrier on shared memory: a true no-op.
pub fn shm_barrier() {
}

/// Unmap a shared-memory region: nothing was ever mapped, so this
/// trivially succeeds.
pub fn shm_unmap(channel: &mut ErrorChannel, _delete_flags: i32) -> (st: Status)
    ensures
        st == Status::Okay,
        final(channel)@ is None,
{
    channel.clear();
    Status::Okay
}

/// Fetch a page of a memory-mapped file: unsupported.
pub fn mem_fetch(channel: &mut ErrorChannel, _offset: i64, _amt: i32) -> (st: Status)
    ensures
        st == Status::Error,
        final(channel)@ is None,
{
    channel.clear();
    Status::Error
}

/// Release a memory-mapped page: nothing was ever fetched, so this
/// trivially succeeds.
pub fn mem_unfetch(channel: &mut ErrorChannel, _offset: i64) -> (st: Status)
    ensures
        st == Status::Okay,
        final(channel)@ is None,
{
    channel.clear();
    Status::Okay
}

} // verus!
