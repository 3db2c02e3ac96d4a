//! The application-facing capability traits: a filesystem-like provider and
//! a file handle, together with the sequence model of a file's contents
//! that the per-file contracts are stated over.

use vstd::prelude::*;
use crate::error::{VfsError, VfsErrorKind};
use crate::flags::OpenOptions;

verus! {

/// The contents of a file after writing `bytes` at absolute position
/// `offset`: positions below `offset` keep their old value (or zero where
/// the file was shorter than `offset`), the written range holds `bytes`,
/// and anything beyond it keeps its old value.
pub open spec fn write_model(data: Seq<u8>, offset: nat, bytes: Seq<u8>) -> Seq<u8> {
    let len = if data.len() > offset + bytes.len() {
        data.len()
    } else {
        offset + bytes.len()
    };
    Seq::new(
        len,
        |i: int|
            if offset <= i < offset + bytes.len() {
                bytes[i - offset]
            } else if i < data.len() {
                data[i]
            } else {
                0u8
            },
    )
}

/// The contents of a file after truncating it to `size` bytes: a prefix of
/// the old contents, or the old contents zero-extended where `size` exceeds
/// the old length.
pub open spec fn truncate_model(data: Seq<u8>, size: nat) -> Seq<u8> {
    Seq::new(
        size,
        |i: int|
            if i < data.len() {
                data[i]
            } else {
                0u8
            },
    )
}

/// Writing `bytes` at offset zero and reading the same length back at
/// offset zero yields `bytes` again, whatever the file held before.
pub proof fn lemma_write_then_read_round_trip(data: Seq<u8>, bytes: Seq<u8>)
    ensures
        write_model(data, 0, bytes).subrange(0, bytes.len() as int) == bytes,
{
    assert(write_model(data, 0, bytes).subrange(0, bytes.len() as int) =~= bytes);
}

/// A file opened by a [`Vfs`] provider: one open storage object with
/// positioned, exact-length reads and writes.
///
/// The contracts are stated over [`File::data`], the object's current
/// contents. An implementation is free to fail any operation (a backend
/// error), but whatever it reports must be truthful about the contents.
pub trait File: Sized {
    /// The current contents of the storage object. A verified
    /// implementation overrides this with its own model; the default says
    /// the object is empty.
    open spec fn data(&self) -> Seq<u8> {
        Seq::empty()
    }

    /// Read exactly `len` bytes starting at absolute position `offset`.
    ///
    /// Reaching end-of-data before `len` bytes are available is reported as
    /// a failure of kind [`VfsErrorKind::UnexpectedEof`].
    fn read_at(&mut self, offset: u64, len: usize) -> (r: Result<Vec<u8>, VfsError>)
        ensures
            final(self).data() == old(self).data(),
            r matches Ok(buf) ==> offset + len <= old(self).data().len() && buf@ == old(self).data().subrange(offset as int, offset + len),
            (r matches Err(e) && e.kind == VfsErrorKind::UnexpectedEof) ==> offset + len > old(self).data().len(),
    ;

    /// Write all of `bytes` starting at absolute position `offset`,
    /// extending the object if needed.
    fn write_at(&mut self, offset: u64, bytes: &Vec<u8>) -> (r: Result<(), VfsError>)
        ensures
            r is Ok ==> final(self).data() == write_model(
                old(self).data(),
                offset as nat,
                bytes@,
            ),
    ;

    /// The current size of the storage object in bytes.
    fn file_size(&self) -> (r: Result<u64, VfsError>)
        ensures
            r matches Ok(n) ==> n as nat == self.data().len(),
    ;

    /// Truncate (or zero-extend) the storage object to `size` bytes.
    fn truncate(&mut self, size: u64) -> (r: Result<(), VfsError>)
        ensures
            r is Ok ==> final(self).data() == truncate_model(old(self).data(), size as nat),
    ;

    /// Make the contents durable. Never changes the contents.
    fn flush(&mut self) -> (r: Result<(), VfsError>)
        ensures
            final(self).data() == old(self).data(),
    ;
}

/// A virtual file system: the application-supplied provider that opens,
/// deletes and queries named storage objects.
pub trait Vfs {
    /// The file returned by [`Vfs::open`].
    type File: File;

    /// Open the storage object (of type `opts.kind`) at `path`.
    fn open(&self, path: &str, opts: OpenOptions) -> (r: Result<Self::File, VfsError>);

    /// Delete the storage object at `path`.
    ///
    /// A provider reports a failure of kind [`VfsErrorKind::NotFound`] for a
    /// path that holds no object; the dispatch layer downgrades that to
    /// success.
    fn delete(&self, path: &str) -> (r: Result<(), VfsError>);

    /// Check whether an object at `path` already exists.
    fn exists_path(&self, path: &str) -> (r: Result<bool, VfsError>);

    /// Check access to `path`. The default implementation always grants it.
    fn access(&self, path: &str, write: bool) -> (r: Result<bool, VfsError>) {
        Ok(true)
    }
}

} // verus!
