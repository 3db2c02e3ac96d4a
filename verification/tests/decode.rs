//! Tests of the open-flags decoder.

use sqlite_vfs::flags::{
    OpenAccess, OpenKind, OpenOptions, OPEN_CREATE, OPEN_DELETEONCLOSE, OPEN_EXCLUSIVE,
    OPEN_MAIN_DB, OPEN_MAIN_JOURNAL, OPEN_READONLY, OPEN_READWRITE, OPEN_SUBJOURNAL,
    OPEN_SUPER_JOURNAL, OPEN_TEMP_DB, OPEN_TEMP_JOURNAL, OPEN_TRANSIENT_DB, OPEN_WAL,
};

#[test]
fn kind_decodes_each_single_bit() {
    assert_eq!(OpenKind::from_flags(OPEN_MAIN_DB), Some(OpenKind::MainDb));
    assert_eq!(OpenKind::from_flags(OPEN_MAIN_JOURNAL), Some(OpenKind::MainJournal));
    assert_eq!(OpenKind::from_flags(OPEN_TEMP_DB), Some(OpenKind::TempDb));
    assert_eq!(OpenKind::from_flags(OPEN_TEMP_JOURNAL), Some(OpenKind::TempJournal));
    assert_eq!(OpenKind::from_flags(OPEN_TRANSIENT_DB), Some(OpenKind::TransientDb));
    assert_eq!(OpenKind::from_flags(OPEN_SUBJOURNAL), Some(OpenKind::SubJournal));
    assert_eq!(OpenKind::from_flags(OPEN_SUPER_JOURNAL), Some(OpenKind::SuperJournal));
    assert_eq!(OpenKind::from_flags(OPEN_WAL), Some(OpenKind::Wal));
}

#[test]
fn kind_priority_first_match_wins() {
    // The main-database bit wins over the main-journal bit.
    assert_eq!(
        OpenKind::from_flags(OPEN_MAIN_DB | OPEN_MAIN_JOURNAL),
        Some(OpenKind::MainDb)
    );
    // The main-journal bit wins over everything below it in the order.
    assert_eq!(
        OpenKind::from_flags(OPEN_MAIN_JOURNAL | OPEN_TEMP_DB | OPEN_WAL),
        Some(OpenKind::MainJournal)
    );
    assert_eq!(
        OpenKind::from_flags(OPEN_SUPER_JOURNAL | OPEN_WAL),
        Some(OpenKind::SuperJournal)
    );
}

#[test]
fn kind_rejects_value_without_kind_bit() {
    assert_eq!(OpenKind::from_flags(0), None);
    assert_eq!(OpenKind::from_flags(OPEN_READONLY | OPEN_CREATE), None);
}

#[test]
fn access_decodes_by_privilege() {
    assert_eq!(
        OpenAccess::from_flags(OPEN_CREATE | OPEN_EXCLUSIVE),
        Some(OpenAccess::CreateNew)
    );
    assert_eq!(
        OpenAccess::from_flags(OPEN_CREATE | OPEN_EXCLUSIVE | OPEN_READWRITE),
        Some(OpenAccess::CreateNew)
    );
    assert_eq!(OpenAccess::from_flags(OPEN_CREATE), Some(OpenAccess::Create));
    assert_eq!(OpenAccess::from_flags(OPEN_READWRITE), Some(OpenAccess::Write));
    assert_eq!(OpenAccess::from_flags(OPEN_READONLY), Some(OpenAccess::Read));
    // The exclusive bit alone grants nothing.
    assert_eq!(OpenAccess::from_flags(OPEN_EXCLUSIVE), None);
    assert_eq!(OpenAccess::from_flags(0), None);
}

#[test]
fn options_decode_combines_all_three_parts() {
    let opts = OpenOptions::from_flags(
        OPEN_TEMP_JOURNAL | OPEN_CREATE | OPEN_DELETEONCLOSE,
    )
    .unwrap();
    assert_eq!(opts.kind, OpenKind::TempJournal);
    assert_eq!(opts.access, OpenAccess::Create);
    assert!(opts.delete_on_close);

    let opts = OpenOptions::from_flags(OPEN_MAIN_DB | OPEN_READONLY).unwrap();
    assert_eq!(opts.kind, OpenKind::MainDb);
    assert_eq!(opts.access, OpenAccess::Read);
    assert!(!opts.delete_on_close);
}

#[test]
fn options_decode_fails_if_either_part_fails() {
    // No kind bit.
    assert_eq!(OpenOptions::from_flags(OPEN_READWRITE), None);
    // No access bit.
    assert_eq!(OpenOptions::from_flags(OPEN_MAIN_DB), None);
    assert_eq!(OpenOptions::from_flags(0), None);
}
