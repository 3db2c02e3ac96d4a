//! A bridge between SQLite's virtual-file-system calling convention and a
//! pair of application-supplied capability traits.
//!
//! The library decodes the engine's open-flag bitmask into a structured
//! intent value, dispatches filesystem-level and file-level operations
//! against the application's provider and file implementations, and manages
//! the single-slot error channel that the engine queries after a failing
//! call.

pub mod error;
pub mod file_ops;
pub mod flags;
pub mod fs_ops;
pub mod register;
pub mod status;
pub mod vfs;

pub use error::{null_ptr_error, ErrorChannel, RegisterError, VfsError, VfsErrorKind};
pub use file_ops::FileHandle;
pub use flags::{OpenAccess, OpenKind, OpenOptions};
pub use status::Status;
pub use vfs::{File, Vfs};
