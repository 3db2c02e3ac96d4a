//! Tests of the error channel's read-and-clear discipline and of the
//! registration boundary checks.

use sqlite_vfs::error::{ErrorChannel, RegisterError, VfsError, VfsErrorKind};
use sqlite_vfs::fs_ops::{full_pathname, get_last_error};
use sqlite_vfs::register::{prepare_vfs_name, register_result};
use sqlite_vfs::status::Status;

#[test]
fn channel_reports_a_deposit_exactly_once() {
    let mut channel = ErrorChannel::new();
    channel.set(VfsError::new(VfsErrorKind::Other, "first failure"));
    assert!(channel.is_set());

    let (st, msg) = get_last_error(&mut channel, 64);
    assert_eq!(st, Status::Okay);
    assert_eq!(msg.unwrap(), b"first failure\0".to_vec());

    // A second immediate query reads an empty channel.
    let (st, msg) = get_last_error(&mut channel, 64);
    assert_eq!(st, Status::Okay);
    assert!(msg.is_none());
}

#[test]
fn channel_keeps_only_the_most_recent_deposit() {
    let mut channel = ErrorChannel::new();
    channel.set(VfsError::new(VfsErrorKind::Other, "older"));
    channel.set(VfsError::new(VfsErrorKind::Other, "newer"));
    let (st, msg) = get_last_error(&mut channel, 64);
    assert_eq!(st, Status::Okay);
    assert_eq!(msg.unwrap(), b"newer\0".to_vec());
}

#[test]
fn channel_clear_and_take() {
    let mut channel = ErrorChannel::new();
    channel.set(VfsError::new(VfsErrorKind::NotFound, "gone"));
    channel.clear();
    assert!(!channel.is_set());
    assert!(channel.take().is_none());

    channel.set(VfsError::new(VfsErrorKind::NotFound, "gone"));
    let taken = channel.take().unwrap();
    assert_eq!(taken.kind, VfsErrorKind::NotFound);
    assert_eq!(taken.message, b"gone".to_vec());
    assert!(!channel.is_set());
}

#[test]
fn channel_slot_round_trip() {
    let err = VfsError::new(VfsErrorKind::Other, "carried");
    let channel = ErrorChannel::from_slot(Some(err.clone()));
    assert_eq!(channel.into_slot(), Some(err));
    assert_eq!(ErrorChannel::from_slot(None).into_slot(), None);
}

#[test]
fn message_that_does_not_fit_is_an_error() {
    let mut channel = ErrorChannel::new();
    channel.set(VfsError::new(VfsErrorKind::Other, "twelve bytes"));
    // The message plus its terminator needs 13 bytes.
    let (st, msg) = get_last_error(&mut channel, 12);
    assert_eq!(st, Status::Error);
    assert!(msg.is_none());
    // The failure was still consumed by the read.
    let (st, msg) = get_last_error(&mut channel, 12);
    assert_eq!(st, Status::Okay);
    assert!(msg.is_none());

    channel.set(VfsError::new(VfsErrorKind::Other, "twelve bytes"));
    let (st, msg) = get_last_error(&mut channel, 13);
    assert_eq!(st, Status::Okay);
    assert_eq!(msg.unwrap(), b"twelve bytes\0".to_vec());
}

#[test]
fn message_with_embedded_terminator_is_an_error() {
    let mut channel = ErrorChannel::new();
    channel.set(VfsError {
        kind: VfsErrorKind::Other,
        message: b"bad\0message".to_vec(),
    });
    let (st, msg) = get_last_error(&mut channel, 64);
    assert_eq!(st, Status::Error);
    assert!(msg.is_none());
}

#[test]
fn full_pathname_copies_verbatim_with_terminator() {
    let mut channel = ErrorChannel::new();
    let path = b"/data/main.db".to_vec();
    let (st, out) = full_pathname(&mut channel, &path, 512);
    assert_eq!(st, Status::Okay);
    assert_eq!(out.unwrap(), b"/data/main.db\0".to_vec());
}

#[test]
fn full_pathname_boundary_at_maximum_length() {
    let mut channel = ErrorChannel::new();
    // 511 bytes plus the terminator exactly fill the 512-byte limit.
    let path = vec![b'a'; 511];
    let (st, out) = full_pathname(&mut channel, &path, 512);
    assert_eq!(st, Status::Okay);
    assert_eq!(out.as_ref().map(|o| o.len()), Some(512));

    // 512 bytes plus the terminator exceed the limit: nothing is written.
    let path = vec![b'a'; 512];
    let (st, out) = full_pathname(&mut channel, &path, 1024);
    assert_eq!(st, Status::Error);
    assert!(out.is_none());
}

#[test]
fn full_pathname_respects_caller_capacity() {
    let mut channel = ErrorChannel::new();
    let path = b"/data/main.db".to_vec();
    // 13 bytes plus the terminator do not fit in 13.
    let (st, out) = full_pathname(&mut channel, &path, 13);
    assert_eq!(st, Status::Error);
    assert!(out.is_none());
    let (st, out) = full_pathname(&mut channel, &path, 14);
    assert_eq!(st, Status::Okay);
    assert_eq!(out.unwrap().len(), 14);
}

#[test]
fn vfs_name_is_terminated_and_checked() {
    assert_eq!(prepare_vfs_name("memvfs"), Ok(b"memvfs\0".to_vec()));
    assert_eq!(prepare_vfs_name(""), Ok(b"\0".to_vec()));
    assert_eq!(prepare_vfs_name("bad\0name"), Err(RegisterError::Nul));
}

#[test]
fn register_result_maps_host_codes() {
    assert_eq!(register_result(0), Ok(()));
    assert_eq!(register_result(1), Err(RegisterError::Register(1)));
    assert_eq!(register_result(21), Err(RegisterError::Register(21)));
}
