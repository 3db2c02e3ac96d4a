//! The error values that dispatch operations deposit, and the single-slot
//! error channel that the engine queries after a non-success status.

use vstd::prelude::*;
use vstd::string::StrSliceExecFns;
use vstd::string::StringSliceAdditionalSpecFns;

verus! {

/// The class of a provider or protocol failure.
///
/// `NotFound` and `UnexpectedEof` are the two classes the dispatch layer
/// inspects: a not-found failure of a delete is downgraded to success, and
/// an end-of-data failure of a read is downgraded to the short-read status.
#[derive(Debug, Clone, Copy, PartialEq, Eq, Structural)]
pub enum VfsErrorKind {
    /// The named object does not exist.
    NotFound,
    /// End of data was reached before the requested length was read.
    UnexpectedEof,
    /// Any other failure.
    Other,
}

/// A failure reported by the application's provider or file, or raised by
/// the dispatch layer itself for a protocol violation.
#[derive(Debug, Clone, PartialEq, Eq)]
pub struct VfsError {
    /// The class of the failure.
    pub kind: VfsErrorKind,
    /// A descriptive message, as bytes; rendered by the last-error query.
    pub message: Vec<u8>,
}

/// The message bytes of the error deposited for a null required pointer.
pub open spec fn null_ptr_message() -> Seq<u8> {
    "received null pointer".spec_bytes()
}

/// The message bytes of the error deposited for an undecodable open-flags
/// value.
pub open spec fn invalid_open_flags_message() -> Seq<u8> {
    "invalid open flags".spec_bytes()
}

impl VfsError {
    /// Build an error of the given class from a message string.
    pub fn new(kind: VfsErrorKind, message: &str) -> (r: VfsError)
        ensures
            r.kind == kind,
            r.message@ == message.spec_bytes(),
    {
        VfsError { kind, message: message.as_bytes_vec() }
    }
}

/// The error deposited when a required pointer of the calling convention is
/// null: a fatal protocol violation.
pub fn null_ptr_error() -> (r: VfsError)
    ensures
        r.kind == VfsErrorKind::Other,
        r.message@ == null_ptr_message(),
{
    VfsError::new(VfsErrorKind::Other, "received null pointer")
}

/// The error deposited when the open-flags bitmask decodes to no intent.
pub fn invalid_open_flags_error() -> (r: VfsError)
    ensures
        r.kind == VfsErrorKind::Other,
        r.message@ == invalid_open_flags_message(),
{
    VfsError::new(VfsErrorKind::Other, "invalid open flags")
}

/// A single-slot holder of the most recent failure, shared between a
/// registration's filesystem-level operations and every file opened under
/// it. Most dispatch operations clear it on entry; the last-error query
/// clears it as a side effect of reading it.
pub struct ErrorChannel {
    slot: Option<VfsError>,
}

impl View for ErrorChannel {
    type V = Option<VfsError>;

    closed spec fn view(&self) -> Option<VfsError> {
        self.slot
    }
}

impl ErrorChannel {
    /// An empty channel.
    pub fn new() -> (r: ErrorChannel)
        ensures
            r@ is None,
    {
        ErrorChannel { slot: None }
    }

    /// Rebuild a channel from its slot value.
    pub fn from_slot(slot: Option<VfsError>) -> (r: ErrorChannel)
        ensures
            r@ == slot,
    {
        ErrorChannel { slot }
    }

    /// Give up the channel and hand its slot value back.
    pub fn into_slot(self) -> (r: Option<VfsError>)
        ensures
            r == self@,
    {
        self.slot
    }

    /// Discard any pending failure.
    pub fn clear(&mut self)
        ensures
            final(self)@ is None,
    {
        self.slot = None;
    }

    /// Deposit a failure, replacing any pending one (last write wins).
    pub fn set(&mut self, err: VfsError)
        ensures
            final(self)@ == Some(err),
    {
        self.slot = Some(err);
    }

    /// Remove and return the pending failure, leaving the channel empty.
    pub fn take(&mut self) -> (r: Option<VfsError>)
        ensures
            final(self)@ is None,
            r == old(self)@,
    {
        self.slot.take()
    }

    /// Whether a failure is pending.
    pub fn is_set(&self) -> (r: bool)
        ensures
            r == (self@ is Some),
    {
        self.slot.is_some()
    }
}

/// Why a provider registration failed before or at the host boundary.
#[derive(Debug, Clone, Copy, PartialEq, Eq, Structural)]
pub enum RegisterError {
    /// The chosen provider name holds an embedded terminator byte, so it
    /// cannot be handed to the host.
    Nul,
    /// The host rejected the registration with the given status code.
    Register(i32),
}

} // verus!
