//! The filesystem-level dispatch operations the engine invokes on a
//! registered provider: open, delete, check-access, canonicalize-path,
//! randomness, clock and the last-error query.

use vstd::prelude::*;
use rand::Rng;
use crate::error::{
    invalid_open_flags_error, invalid_open_flags_message, null_ptr_error, null_ptr_message,
    ErrorChannel, VfsError, VfsErrorKind,
};
use crate::file_ops::FileHandle;
use crate::flags::{spec_options_from_flags, OpenOptions};
use crate::status::{Status, ACCESS_EXISTS, ACCESS_READ, ACCESS_READWRITE};
use crate::vfs::{File, Vfs};

verus! {

/// The maximum path length supported, in bytes, terminator included.
pub const MAX_PATH_LENGTH: usize = 512;

/// Whether a byte sequence holds an embedded terminator byte.
pub open spec fn contains_nul(s: Seq<u8>) -> bool {
    exists|i: int| 0 <= i < s.len() && s[i] == 0
}

/// Install the provider's response to an open call into a fresh handle:
/// a provider failure is deposited and reported as a cant-open condition,
/// and a missing output block is a fatal protocol violation reported the
/// same way.
pub fn open_install<F: File>(
    channel: &mut ErrorChannel,
    path: &str,
    out_block_present: bool,
    r: Result<F, VfsError>,
) -> (out: (Status, Option<FileHandle<F>>))
    ensures
        r matches Err(e) ==> out.0 == Status::CantOpen && out.1 is None && final(channel)@ == Some(e),
        r matches Ok(f) ==> (out_block_present ==> out.0 == Status::Okay && (
        out.1 matches Some(h) && h.name matches Some(n) && n@ == path@ && h.file == Some(f))
            && final(channel)@ == old(channel)@),
        r is Ok ==> (!out_block_present ==> out.0 == Status::CantOpen && out.1 is None && (final(channel)@ matches Some(e2) && e2.message@ == null_ptr_message())),
{
    match r {
        Err(e) => {
            channel.set(e);
            (Status::CantOpen, None)
        },
        Ok(f) => {
            if out_block_present {
                let handle = FileHandle { name: Some(path.to_owned()), file: Some(f) };
                (Status::Okay, Some(handle))
            } else {
                channel.set(null_ptr_error());
                (Status::CantOpen, None)
            }
        },
    }
}

/// Decode the open intent from `flags` and open the storage object at
/// `path` through the provider, yielding the initialized per-file handle
/// on success.
pub fn open<V: Vfs>(
    vfs: &V,
    channel: &mut ErrorChannel,
    path: &str,
    flags: i32,
    out_block_present: bool,
) -> (r: (Status, Option<FileHandle<V::File>>))
    ensures
        spec_options_from_flags(flags) is None ==> (r.0 == Status::CantOpen && r.1 is None && (
        final(channel)@ matches Some(e) && e.message@ == invalid_open_flags_message())),
        r.0 == Status::Okay ==> (r.1 matches Some(h) && h.wf() && (h.name matches Some(n) && n@
            == path@) && h.file is Some && final(channel)@ is None && out_block_present
            && spec_options_from_flags(flags) is Some),
        r.0 != Status::Okay ==> r.0 == Status::CantOpen && r.1 is None && final(channel)@ is Some,
{
    channel.clear();
    let opts = match OpenOptions::from_flags(flags) {
        Some(opts) => opts,
        None => {
            channel.set(invalid_open_flags_error());
            return (Status::CantOpen, None);
        },
    };
    let res = vfs.open(path, opts);
    open_install(channel, path, out_block_present, res)
}

/// Translate the provider's response to a delete into a status: a
/// not-found failure is downgraded to success (idempotent delete), any
/// other failure is deposited and reported as a failed delete.
pub fn delete_outcome(channel: &mut ErrorChannel, r: Result<(), VfsError>) -> (st: Status)
    ensures
        r is Ok ==> st == Status::Okay && final(channel)@ == old(channel)@,
        r matches Err(e) ==> (e.kind == VfsErrorKind::NotFound ==> st == Status::Okay && final(channel)@ == old(channel)@),
        r matches Err(e) ==> (e.kind != VfsErrorKind::NotFound ==> st == Status::DeleteFailed
            && final(channel)@ == Some(e)),
{
    match r {
        Ok(_) => Status::Okay,
        Err(e) => {
            if e.kind == VfsErrorKind::NotFound {
                Status::Okay
            } else {
                channel.set(e);
                Status::DeleteFailed
            }
        },
    }
}

/// Delete the storage object at `path` through the provider. Deleting an
/// object that does not exist succeeds.
pub fn delete<V: Vfs>(vfs: &V, channel: &mut ErrorChannel, path: &str) -> (st: Status)
    ensures
        st == Status::Okay || st == Status::DeleteFailed,
        st == Status::Okay ==> final(channel)@ is None,
        st == Status::DeleteFailed ==> final(channel)@ is Some,
{
    channel.clear();
    let res = vfs.delete(path);
    delete_outcome(channel, res)
}

/// Translate the provider's response to a check-access query into a
/// status and the boolean for the caller's output slot; a missing slot is
/// a fatal protocol violation.
pub fn access_outcome(
    channel: &mut ErrorChannel,
    out_slot_present: bool,
    r: Result<bool, VfsError>,
) -> (out: (Status, Option<bool>))
    ensures
        r matches Err(e) ==> out.0 == Status::IoErrAccess && out.1 is None && final(channel)@
            == Some(e),
        r matches Ok(b) ==> (out_slot_present ==> out.0 == Status::Okay && out.1 == Some(b)
            && final(channel)@ == old(channel)@),
        r is Ok ==> (!out_slot_present ==> out.0 == Status::IoErrAccess && out.1 is None && (final(channel)@ matches Some(e2) && e2.message@ == null_ptr_message())),
{
    match r {
        Err(e) => {
            channel.set(e);
            (Status::IoErrAccess, None)
        },
        Ok(b) => {
            if out_slot_present {
                (Status::Okay, Some(b))
            } else {
                channel.set(null_ptr_error());
                (Status::IoErrAccess, None)
            }
        },
    }
}

/// Answer one of the three check-access flavors — existence, read access,
/// read-write access — against the provider. An unrecognized flavor is an
/// immediate access error that deposits nothing.
pub fn access<V: Vfs>(
    vfs: &V,
    channel: &mut ErrorChannel,
    path: &str,
    flavor: i32,
    out_slot_present: bool,
) -> (r: (Status, Option<bool>))
    ensures
        r.0 == Status::Okay || r.0 == Status::IoErrAccess,
        !(flavor == ACCESS_EXISTS || flavor == ACCESS_READ || flavor == ACCESS_READWRITE) ==> r.0
            == Status::IoErrAccess && r.1 is None && final(channel)@ is None,
        r.0 == Status::Okay ==> r.1 is Some && final(channel)@ is None && out_slot_present,
        (r.0 == Status::IoErrAccess && (flavor == ACCESS_EXISTS || flavor == ACCESS_READ || flavor
            == ACCESS_READWRITE)) ==> final(channel)@ is Some,
{
    channel.clear();
    let res = if flavor == ACCESS_EXISTS {
        vfs.exists_path(path)
    } else if flavor == ACCESS_READ {
        vfs.access(path, false)
    } else if flavor == ACCESS_READWRITE {
        vfs.access(path, true)
    } else {
        return (Status::IoErrAccess, None);
    };
    access_outcome(channel, out_slot_present, res)
}

/// Copy the terminated path into the caller's fixed buffer verbatim (no
/// real canonicalization is performed). Fails, writing nothing, if the
/// path with its terminator exceeds either the caller's capacity or the
/// maximum path length.
pub fn full_pathname(channel: &mut ErrorChannel, path: &Vec<u8>, n_out: usize) -> (r: (
    Status,
    Option<Vec<u8>>,
))
    ensures
        final(channel)@ is None,
        path@.len() + 1 > n_out || path@.len() + 1 > MAX_PATH_LENGTH ==> r.0 == Status::Error
            && r.1 is None,
        path@.len() + 1 <= n_out && path@.len() + 1 <= MAX_PATH_LENGTH ==> r.0 == Status::Okay && (
        r.1 matches Some(out) && out@ == path@.push(0)),
{
    channel.clear();
    if path.len() >= n_out || path.len() >= MAX_PATH_LENGTH {
        return (Status::Error, None);
    }
    let mut out: Vec<u8> = Vec::new();
    let mut i: usize = 0;
    while i < path.len()
        invariant
            0 <= i <= path@.len(),
            out@ == path@.take(i as int),
        decreases path@.len() - i,
    {
        out.push(path[i]);
        i += 1;
    }
    out.push(0);
    assert(out@ =~= path@.push(0));
    (Status::Okay, Some(out))
}

/// Relies on `rand::thread_rng` and `rand::Rng::fill`: fills the whole
/// byte slice in place with pseudo-random data, leaving its length
/// unchanged. Nothing can be promised about the values themselves.
#[verifier::external_body]
fn fill_random_bytes(buf: &mut Vec<u8>)
    ensures
        final(buf)@.len() == old(buf)@.len(),
{
    rand::thread_rng().fill(buf.as_mut_slice());
}

/// Produce `n_byte` bytes of cryptographically irrelevant pseudo-random
/// data for the engine's entropy request.
pub fn randomness(n_byte: usize) -> (r: Vec<u8>)
    ensures
        r@.len() == n_byte,
{
    let mut buf: Vec<u8> = Vec::new();
    let mut i: usize = 0;
    while i < n_byte
        invariant
            0 <= i <= n_byte,
            buf@.len() == i,
        decreases n_byte - i,
    {
        buf.push(0);
        i += 1;
    }
    fill_random_bytes(&mut buf);
    buf
}

/// The engine's Julian Day epoch, expressed in milliseconds before the
/// Unix epoch: the documented scale for the integer clock query.
pub const JULIAN_DAY_UNIX_EPOCH_MILLIS: i64 = 210_866_760_000_000;

/// Relies on `time::OffsetDateTime::now_utc` and
/// `time::OffsetDateTime::unix_timestamp`: whole seconds since the Unix
/// epoch. The crate's dates span the years -9999 through 9999, so the
/// result lies well within four hundred billion seconds of the epoch.
#[verifier::external_body]
fn unix_now() -> (r: i64)
    ensures
        -400_000_000_000 <= r <= 400_000_000_000,
{
    time::OffsetDateTime::now_utc().unix_timestamp()
}

/// The engine's integer clock encoding for a given Unix timestamp:
/// milliseconds since the Julian Day epoch.
pub fn julian_day_millis(unix_secs: i64) -> (r: i64)
    requires
        -400_000_000_000 <= unix_secs <= 400_000_000_000,
    ensures
        r == JULIAN_DAY_UNIX_EPOCH_MILLIS + unix_secs * 1000,
{
    JULIAN_DAY_UNIX_EPOCH_MILLIS + unix_secs * 1000
}

/// The current UTC time encoded as milliseconds since the Julian Day
/// epoch, as the engine's integer clock query expects.
pub fn current_time_int64(channel: &mut ErrorChannel) -> (r: i64)
    ensures
        final(channel)@ is None,
        JULIAN_DAY_UNIX_EPOCH_MILLIS - 400_000_000_000_000 <= r <= JULIAN_DAY_UNIX_EPOCH_MILLIS
            + 400_000_000_000_000,
{
    channel.clear();
    let now = unix_now();
    julian_day_millis(now)
}

/// Render the pending failure's message (with terminator) into a buffer of
/// capacity `n_byte` for the engine's last-error query. The channel is
/// cleared by the read; an empty channel reads as success with nothing
/// written. A message that holds an embedded terminator or does not fit is
/// a generic error (the failure is still consumed).
pub fn get_last_error(channel: &mut ErrorChannel, n_byte: usize) -> (r: (Status, Option<Vec<u8>>))
    ensures
        final(channel)@ is None,
        old(channel)@ is None ==> r.0 == Status::Okay && r.1 is None,
        old(channel)@ matches Some(e) ==> (contains_nul(e.message@) ==> r.0 == Status::Error
            && r.1 is None),
        old(channel)@ matches Some(e) ==> (!contains_nul(e.message@) && e.message@.len() + 1
            > n_byte ==> r.0 == Status::Error && r.1 is None),
        old(channel)@ matches Some(e) ==> (!contains_nul(e.message@) && e.message@.len() + 1
            <= n_byte ==> r.0 == Status::Okay && (r.1 matches Some(out) && out@ == e.message@.push(
            0,
        ))),
{
    let err = match channel.take() {
        None => {
            return (Status::Okay, None);
        },
        Some(err) => err,
    };
    let mut msg = err.message;
    let mut i: usize = 0;
    while i < msg.len()
        invariant
            channel@ is None,
            old(channel)@ matches Some(e) && e.message@ == msg@,
            0 <= i <= msg@.len(),
            forall|k: int| 0 <= k < i ==> msg@[k] != 0,
        decreases msg@.len() - i,
    {
        if msg[i] == 0 {
            return (Status::Error, None);
        }
        i += 1;
    }
    if msg.len() >= n_byte {
        return (Status::Error, None);
    }
    msg.push(0);
    (Status::Okay, Some(msg))
}

} // verus!
