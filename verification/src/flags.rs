//! Decoding of the engine's open-flags bitmask into a structured intent.
//!
//! The numeric flag values are fixed by the engine's open contract
//! (`SQLITE_OPEN_*` in `sqlite3.h`); they are not chosen by this crate.

use vstd::prelude::*;

verus! {

/// `SQLITE_OPEN_READONLY`
pub const OPEN_READONLY: i32 = 0x1;

/// `SQLITE_OPEN_READWRITE`
pub const OPEN_READWRITE: i32 = 0x2;

/// `SQLITE_OPEN_CREATE`
pub const OPEN_CREATE: i32 = 0x4;

/// `SQLITE_OPEN_DELETEONCLOSE`
pub const OPEN_DELETEONCLOSE: i32 = 0x8;

/// `SQLITE_OPEN_EXCLUSIVE`
pub const OPEN_EXCLUSIVE: i32 = 0x10;

/// `SQLITE_OPEN_MAIN_DB`
pub const OPEN_MAIN_DB: i32 = 0x100;

/// `SQLITE_OPEN_TEMP_DB`
pub const OPEN_TEMP_DB: i32 = 0x200;

/// `SQLITE_OPEN_TRANSIENT_DB`
pub const OPEN_TRANSIENT_DB: i32 = 0x400;

/// `SQLITE_OPEN_MAIN_JOURNAL`
pub const OPEN_MAIN_JOURNAL: i32 = 0x800;

/// `SQLITE_OPEN_TEMP_JOURNAL`
pub const OPEN_TEMP_JOURNAL: i32 = 0x1000;

/// `SQLITE_OPEN_SUBJOURNAL`
pub const OPEN_SUBJOURNAL: i32 = 0x2000;

/// `SQLITE_OPEN_SUPER_JOURNAL`
pub const OPEN_SUPER_JOURNAL: i32 = 0x4000;

/// `SQLITE_OPEN_WAL`
pub const OPEN_WAL: i32 = 0x80000;

/// The object type that is being opened.
#[derive(Debug, Clone, Copy, PartialEq, Eq, Structural)]
pub enum OpenKind {
    MainDb,
    MainJournal,
    TempDb,
    TempJournal,
    TransientDb,
    SubJournal,
    SuperJournal,
    Wal,
}

/// The access an object is opened with, ordered by increasing privilege.
#[derive(Debug, Clone, Copy, PartialEq, Eq, Structural)]
pub enum OpenAccess {
    /// Read access.
    Read,

    /// Write access (includes read access).
    Write,

    /// Create the file if it does not exist (includes write and read access).
    Create,

    /// Create the file, but fail if it already exists (includes write and
    /// read access).
    CreateNew,
}

/// The decoded intent of an open call.
#[derive(Debug, Clone, PartialEq, Eq, Structural)]
pub struct OpenOptions {
    /// The object type that is being opened.
    pub kind: OpenKind,

    /// The access an object is opened with.
    pub access: OpenAccess,

    /// The file should be deleted when it is closed.
    pub delete_on_close: bool,
}

/// The object kind encoded in a flags value: the kind bits are tested in a
/// fixed priority order and the first match wins; no match is a decode
/// failure.
pub open spec fn spec_kind_from_flags(flags: i32) -> Option<OpenKind> {
    if flags & OPEN_MAIN_DB != 0 {
        Some(OpenKind::MainDb)
    } else if flags & OPEN_MAIN_JOURNAL != 0 {
        Some(OpenKind::MainJournal)
    } else if flags & OPEN_TEMP_DB != 0 {
        Some(OpenKind::TempDb)
    } else if flags & OPEN_TEMP_JOURNAL != 0 {
        Some(OpenKind::TempJournal)
    } else if flags & OPEN_TRANSIENT_DB != 0 {
        Some(OpenKind::TransientDb)
    } else if flags & OPEN_SUBJOURNAL != 0 {
        Some(OpenKind::SubJournal)
    } else if flags & OPEN_SUPER_JOURNAL != 0 {
        Some(OpenKind::SuperJournal)
    } else if flags & OPEN_WAL != 0 {
        Some(OpenKind::Wal)
    } else {
        None
    }
}

/// The access mode encoded in a flags value: exclusive creation wins over
/// plain creation, which wins over read-write, which wins over read-only;
/// none of the four is a decode failure.
pub open spec fn spec_access_from_flags(flags: i32) -> Option<OpenAccess> {
    if flags & OPEN_CREATE != 0 && flags & OPEN_EXCLUSIVE != 0 {
        Some(OpenAccess::CreateNew)
    } else if flags & OPEN_CREATE != 0 {
        Some(OpenAccess::Create)
    } else if flags & OPEN_READWRITE != 0 {
        Some(OpenAccess::Write)
    } else if flags & OPEN_READONLY != 0 {
        Some(OpenAccess::Read)
    } else {
        None
    }
}

/// The full decoded intent of a flags value; fails if either the kind or the
/// access sub-decode fails.
pub open spec fn spec_options_from_flags(flags: i32) -> Option<OpenOptions> {
    match (spec_kind_from_flags(flags), spec_access_from_flags(flags)) {
        (Some(kind), Some(access)) => Some(
            OpenOptions {
                kind,
                access,
                delete_on_close: flags & OPEN_DELETEONCLOSE != 0,
            },
        ),
        _ => None,
    }
}

/// The flag bit that selects an object kind.
pub open spec fn kind_bit(kind: OpenKind) -> i32 {
    match kind {
        OpenKind::MainDb => OPEN_MAIN_DB,
        OpenKind::MainJournal => OPEN_MAIN_JOURNAL,
        OpenKind::TempDb => OPEN_TEMP_DB,
        OpenKind::TempJournal => OPEN_TEMP_JOURNAL,
        OpenKind::TransientDb => OPEN_TRANSIENT_DB,
        OpenKind::SubJournal => OPEN_SUBJOURNAL,
        OpenKind::SuperJournal => OPEN_SUPER_JOURNAL,
        OpenKind::Wal => OPEN_WAL,
    }
}

/// Whether `flags` sets the kind bit of `kind` and of no other kind.
pub open spec fn only_kind_bit_set(flags: i32, kind: OpenKind) -> bool {
    &&& flags & kind_bit(kind) != 0
    &&& forall|other: OpenKind| other != kind ==> #[trigger] (flags & kind_bit(other)) == 0
}

/// The kind bits are tested in a fixed priority order and the first match
/// wins: a flags value that sets the main-database bit decodes to the main
/// database whatever else it sets, and so on down the order.
pub proof fn lemma_decode_kind_priority(flags: i32)
    ensures
        flags & OPEN_MAIN_DB != 0 ==> spec_kind_from_flags(flags) == Some(OpenKind::MainDb),
        flags & OPEN_MAIN_DB == 0 && flags & OPEN_MAIN_JOURNAL != 0 ==> spec_kind_from_flags(flags)
            == Some(OpenKind::MainJournal),
        flags & OPEN_MAIN_DB == 0 && flags & OPEN_MAIN_JOURNAL == 0 && flags & OPEN_TEMP_DB != 0
            ==> spec_kind_from_flags(flags) == Some(OpenKind::TempDb),
        flags & OPEN_MAIN_DB == 0 && flags & OPEN_MAIN_JOURNAL == 0 && flags & OPEN_TEMP_DB == 0
            && flags & OPEN_TEMP_JOURNAL != 0 ==> spec_kind_from_flags(flags) == Some(
            OpenKind::TempJournal,
        ),
        flags & OPEN_MAIN_DB == 0 && flags & OPEN_MAIN_JOURNAL == 0 && flags & OPEN_TEMP_DB == 0
            && flags & OPEN_TEMP_JOURNAL == 0 && flags & OPEN_TRANSIENT_DB != 0
            ==> spec_kind_from_flags(flags) == Some(OpenKind::TransientDb),
        flags & OPEN_MAIN_DB == 0 && flags & OPEN_MAIN_JOURNAL == 0 && flags & OPEN_TEMP_DB == 0
            && flags & OPEN_TEMP_JOURNAL == 0 && flags & OPEN_TRANSIENT_DB == 0 && flags
            & OPEN_SUBJOURNAL != 0 ==> spec_kind_from_flags(flags) == Some(OpenKind::SubJournal),
        flags & OPEN_MAIN_DB == 0 && flags & OPEN_MAIN_JOURNAL == 0 && flags & OPEN_TEMP_DB == 0
            && flags & OPEN_TEMP_JOURNAL == 0 && flags & OPEN_TRANSIENT_DB == 0 && flags
            & OPEN_SUBJOURNAL == 0 && flags & OPEN_SUPER_JOURNAL != 0 ==> spec_kind_from_flags(
            flags,
        ) == Some(OpenKind::SuperJournal),
        flags & OPEN_MAIN_DB == 0 && flags & OPEN_MAIN_JOURNAL == 0 && flags & OPEN_TEMP_DB == 0
            && flags & OPEN_TEMP_JOURNAL == 0 && flags & OPEN_TRANSIENT_DB == 0 && flags
            & OPEN_SUBJOURNAL == 0 && flags & OPEN_SUPER_JOURNAL == 0 && flags & OPEN_WAL != 0
            ==> spec_kind_from_flags(flags) == Some(OpenKind::Wal),
        flags & OPEN_MAIN_DB == 0 && flags & OPEN_MAIN_JOURNAL == 0 && flags & OPEN_TEMP_DB == 0
            && flags & OPEN_TEMP_JOURNAL == 0 && flags & OPEN_TRANSIENT_DB == 0 && flags
            & OPEN_SUBJOURNAL == 0 && flags & OPEN_SUPER_JOURNAL == 0 && flags & OPEN_WAL == 0
            ==> spec_kind_from_flags(flags) is None,
{
}

/// A flags value that sets exactly one kind bit decodes to exactly that
/// kind: on such values the decode is total and injective.
pub proof fn lemma_decode_kind_single_bit(flags: i32, kind: OpenKind)
    requires
        only_kind_bit_set(flags, kind),
    ensures
        spec_kind_from_flags(flags) == Some(kind),
{
    assert(flags & kind_bit(OpenKind::MainDb) == 0 || kind == OpenKind::MainDb);
    assert(flags & kind_bit(OpenKind::MainJournal) == 0 || kind == OpenKind::MainJournal);
    assert(flags & kind_bit(OpenKind::TempDb) == 0 || kind == OpenKind::TempDb);
    assert(flags & kind_bit(OpenKind::TempJournal) == 0 || kind == OpenKind::TempJournal);
    assert(flags & kind_bit(OpenKind::TransientDb) == 0 || kind == OpenKind::TransientDb);
    assert(flags & kind_bit(OpenKind::SubJournal) == 0 || kind == OpenKind::SubJournal);
    assert(flags & kind_bit(OpenKind::SuperJournal) == 0 || kind == OpenKind::SuperJournal);
    assert(flags & kind_bit(OpenKind::Wal) == 0 || kind == OpenKind::Wal);
}

/// Two flags values that each set exactly one kind bit, and different
/// ones, decode to different kinds.
pub proof fn lemma_decode_kind_injective(f1: i32, f2: i32, k1: OpenKind, k2: OpenKind)
    requires
        only_kind_bit_set(f1, k1),
        only_kind_bit_set(f2, k2),
        k1 != k2,
    ensures
        spec_kind_from_flags(f1) is Some,
        spec_kind_from_flags(f2) is Some,
        spec_kind_from_flags(f1) != spec_kind_from_flags(f2),
{
    lemma_decode_kind_single_bit(f1, k1);
    lemma_decode_kind_single_bit(f2, k2);
}

/// A flags value whose kind and access sub-decodes both succeed decodes as
/// a whole: the full decode is total on such values.
pub proof fn lemma_decode_total(flags: i32)
    requires
        spec_kind_from_flags(flags) is Some,
        spec_access_from_flags(flags) is Some,
    ensures
        spec_options_from_flags(flags) is Some,
{
}

/// On a flags value that sets exactly one kind bit and a valid access
/// combination, the full decode succeeds and yields exactly that kind,
/// that access mode, and the independent delete-on-close bit.
pub proof fn lemma_decode_options_single_bit(flags: i32, kind: OpenKind)
    requires
        only_kind_bit_set(flags, kind),
        spec_access_from_flags(flags) is Some,
    ensures
        spec_options_from_flags(flags) == Some(
            OpenOptions {
                kind,
                access: spec_access_from_flags(flags)->Some_0,
                delete_on_close: flags & OPEN_DELETEONCLOSE != 0,
            },
        ),
{
    lemma_decode_kind_single_bit(flags, kind);
}

/// The access-mode decode, clause by clause: both creation bits yield
/// exclusive creation, the create bit alone yields plain creation, then
/// read-write, then read-only, and a value with none of the four fails.
pub proof fn lemma_decode_access(flags: i32)
    ensures
        flags & OPEN_CREATE != 0 && flags & OPEN_EXCLUSIVE != 0 ==> spec_access_from_flags(flags)
            == Some(OpenAccess::CreateNew),
        flags & OPEN_CREATE != 0 && flags & OPEN_EXCLUSIVE == 0 ==> spec_access_from_flags(flags)
            == Some(OpenAccess::Create),
        flags & OPEN_CREATE == 0 && flags & OPEN_READWRITE != 0 ==> spec_access_from_flags(flags)
            == Some(OpenAccess::Write),
        flags & OPEN_CREATE == 0 && flags & OPEN_READWRITE == 0 && flags & OPEN_READONLY != 0
            ==> spec_access_from_flags(flags) == Some(OpenAccess::Read),
        flags & OPEN_CREATE == 0 && flags & OPEN_READWRITE == 0 && flags & OPEN_READONLY == 0
            ==> spec_access_from_flags(flags) is None,
{
}

impl OpenKind {
    /// Decode the object kind from an open-flags value.
    pub fn from_flags(flags: i32) -> (r: Option<Self>)
        ensures
            r == spec_kind_from_flags(flags),
    {
        if flags & OPEN_MAIN_DB != 0 {
            Some(Self::MainDb)
        } else if flags & OPEN_MAIN_JOURNAL != 0 {
            Some(Self::MainJournal)
        } else if flags & OPEN_TEMP_DB != 0 {
            Some(Self::TempDb)
        } else if flags & OPEN_TEMP_JOURNAL != 0 {
            Some(Self::TempJournal)
        } else if flags & OPEN_TRANSIENT_DB != 0 {
            Some(Self::TransientDb)
        } else if flags & OPEN_SUBJOURNAL != 0 {
            Some(Self::SubJournal)
        } else if flags & OPEN_SUPER_JOURNAL != 0 {
            Some(Self::SuperJournal)
        } else if flags & OPEN_WAL != 0 {
            Some(Self::Wal)
        } else {
            None
        }
    }
}

impl OpenAccess {
    /// Decode the access mode from an open-flags value.
    pub fn from_flags(flags: i32) -> (r: Option<Self>)
        ensures
            r == spec_access_from_flags(flags),
    {
        if flags & OPEN_CREATE != 0 && flags & OPEN_EXCLUSIVE != 0 {
            Some(Self::CreateNew)
        } else if flags & OPEN_CREATE != 0 {
            Some(Self::Create)
        } else if flags & OPEN_READWRITE != 0 {
            Some(Self::Write)
        } else if flags & OPEN_READONLY != 0 {
            Some(Self::Read)
        } else {
            None
        }
    }
}

impl OpenOptions {
    /// Decode the full open intent from an open-flags value.
    pub fn from_flags(flags: i32) -> (r: Option<Self>)
        ensures
            r == spec_options_from_flags(flags),
    {
        let kind = match OpenKind::from_flags(flags) {
            Some(kind) => kind,
            None => {
                return None;
            },
        };
        let access = match OpenAccess::from_flags(flags) {
            Some(access) => access,
            None => {
                return None;
            },
        };
        Some(
            OpenOptions {
                kind,
                access,
                delete_on_close: flags & OPEN_DELETEONCLOSE != 0,
            },
        )
    }
}

} // verus!
