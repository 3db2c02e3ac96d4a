//! The checks and encodings of the registration boundary: a provider is
//! installed under a chosen name, once, for the remainder of the process.

use vstd::prelude::*;
use vstd::string::StrSliceExecFns;
use vstd::string::StringSliceAdditionalSpecFns;
use crate::error::RegisterError;
use crate::fs_ops::contains_nul;

verus! {

/// The filesystem-table version this crate targets.
pub const VFS_VERSION: i32 = 3;

/// The per-file-table version this crate targets.
pub const IO_VERSION: i32 = 3;

/// Encode a chosen provider name for the host: the name followed by a
/// terminator byte. A name holding an embedded terminator cannot be handed
/// to the host, so registration fails before reaching it.
pub fn prepare_vfs_name(name: &str) -> (r: Result<Vec<u8>, RegisterError>)
    ensures
        r matches Ok(b) ==> b@ == name.spec_bytes().push(0) && !contains_nul(name.spec_bytes()),
        r matches Err(e) ==> e == RegisterError::Nul && contains_nul(name.spec_bytes()),
{
    let mut bytes = name.as_bytes_vec();
    let mut i: usize = 0;
    while i < bytes.len()
        invariant
            bytes@ == name.spec_bytes(),
            0 <= i <= bytes@.len(),
            forall|k: int| 0 <= k < i ==> bytes@[k] != 0,
        decreases bytes@.len() - i,
    {
        if bytes[i] == 0 {
            return Err(RegisterError::Nul);
        }
        i += 1;
    }
    bytes.push(0);
    Ok(bytes)
}

/// Interpret the host's answer to a registration request: zero is
/// success, any other code is handed back as a registration failure.
pub fn register_result(code: i32) -> (r: Result<(), RegisterError>)
    ensures
        code == 0 ==> r is Ok,
        code != 0 ==> r == Err::<(), RegisterError>(RegisterError::Register(code)),
{
    if code == 0 {
        Ok(())
    } else {
        Err(RegisterError::Register(code))
    }
}

} // verus!
