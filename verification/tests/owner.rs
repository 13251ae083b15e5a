use posix_fs::file_system::errors::{FsError, PosixFsError};
use posix_fs::file_system::fs::{str_to_path, EntryMetadata};
use posix_fs::file_system::owner::{
    group, group_from_lookup, lookup_group, lookup_user, user, user_from_lookup, NameLookup,
};
use std::io::ErrorKind;
use std::path::PathBuf;

#[test]
fn a_path_spells_its_text() {
    assert_eq!(str_to_path("/etc/passwd"), PathBuf::from("/etc/passwd"));
    assert_eq!(str_to_path("/etc/passwd").to_str(), Some("/etc/passwd"));
    assert_eq!(str_to_path(""), PathBuf::new());
    assert_eq!(str_to_path("a/b").file_name().and_then(|name| name.to_str()), Some("b"));
}

#[test]
fn a_found_user_name_is_the_result() {
    assert_eq!(user_from_lookup(NameLookup::Name(String::from("root"))), Ok(String::from("root")));
}

#[test]
fn a_missing_user_is_user_not_found() {
    assert_eq!(
        user_from_lookup(NameLookup::NoEntry),
        Err(PosixFsError::FsErr(FsError::UserNotFound))
    );
}

#[test]
fn a_user_name_that_is_not_text() {
    assert_eq!(
        user_from_lookup(NameLookup::NameNotText),
        Err(PosixFsError::FsErr(FsError::OsStringConversion))
    );
}

#[test]
fn a_user_query_reports_no_group_error() {
    for lookup in [NameLookup::NoEntry, NameLookup::NameNotText] {
        assert_ne!(user_from_lookup(lookup), Err(PosixFsError::FsErr(FsError::GroupNotFound)));
    }
}

#[test]
fn a_found_group_name_is_the_result() {
    assert_eq!(
        group_from_lookup(NameLookup::Name(String::from("wheel"))),
        Ok(String::from("wheel"))
    );
}

#[test]
fn a_missing_group_is_group_not_found() {
    assert_eq!(
        group_from_lookup(NameLookup::NoEntry),
        Err(PosixFsError::FsErr(FsError::GroupNotFound))
    );
}

#[test]
fn a_group_name_that_is_not_text() {
    assert_eq!(
        group_from_lookup(NameLookup::NameNotText),
        Err(PosixFsError::FsErr(FsError::OsStringConversion))
    );
}

#[test]
fn a_failed_read_carries_its_kind() {
    assert_eq!(user(Err(ErrorKind::NotFound)), Err(PosixFsError::IoErr(ErrorKind::NotFound)));
    assert_eq!(
        user(Err(ErrorKind::PermissionDenied)),
        Err(PosixFsError::IoErr(ErrorKind::PermissionDenied))
    );
    assert_eq!(group(Err(ErrorKind::NotFound)), Err(PosixFsError::IoErr(ErrorKind::NotFound)));
    assert_eq!(group(Err(ErrorKind::TimedOut)), Err(PosixFsError::IoErr(ErrorKind::TimedOut)));
}

fn expected_user(uid: u32) -> Result<String, PosixFsError> {
    match users::get_user_by_uid(uid) {
        Some(found) => match found.name().to_str() {
            Some(name) => Ok(String::from(name)),
            None => Err(PosixFsError::FsErr(FsError::OsStringConversion)),
        },
        None => Err(PosixFsError::FsErr(FsError::UserNotFound)),
    }
}

fn expected_group(gid: u32) -> Result<String, PosixFsError> {
    match users::get_group_by_gid(gid) {
        Some(found) => match found.name().to_str() {
            Some(name) => Ok(String::from(name)),
            None => Err(PosixFsError::FsErr(FsError::OsStringConversion)),
        },
        None => Err(PosixFsError::FsErr(FsError::GroupNotFound)),
    }
}

#[test]
fn the_user_is_the_one_the_database_names() {
    for uid in [0u32, 1, 2, 1000, 65534, 4_000_000_000, u32::MAX - 1] {
        let metadata = EntryMetadata { uid, gid: 0, mode: 0o644 };
        assert_eq!(user(Ok(metadata)), expected_user(uid));
    }
}

#[test]
fn the_group_is_the_one_the_database_names() {
    for gid in [0u32, 1, 2, 1000, 65534, 4_000_000_000, u32::MAX - 1] {
        let metadata = EntryMetadata { uid: 0, gid, mode: 0o644 };
        assert_eq!(group(Ok(metadata)), expected_group(gid));
    }
}

fn found_user(uid: u32) -> NameLookup {
    match users::get_user_by_uid(uid) {
        Some(found) => match found.name().to_str() {
            Some(name) => NameLookup::Name(String::from(name)),
            None => NameLookup::NameNotText,
        },
        None => NameLookup::NoEntry,
    }
}

fn found_group(gid: u32) -> NameLookup {
    match users::get_group_by_gid(gid) {
        Some(found) => match found.name().to_str() {
            Some(name) => NameLookup::Name(String::from(name)),
            None => NameLookup::NameNotText,
        },
        None => NameLookup::NoEntry,
    }
}

#[test]
fn the_lookups_answer_as_the_databases_do() {
    for id in [0u32, 1, 2, 1000, 65534, 4_000_000_000, u32::MAX - 1] {
        assert_eq!(lookup_user(id), found_user(id));
        assert_eq!(lookup_group(id), found_group(id));
    }
}

#[test]
fn the_user_query_reads_the_user_id_only() {
    let one = EntryMetadata { uid: 0, gid: 5, mode: 0o600 };
    let other = EntryMetadata { uid: 0, gid: 4_000_000_001, mode: 0o7777 };
    assert_eq!(user(Ok(one)), user(Ok(other)));
}

#[test]
fn the_group_query_reads_the_group_id_only() {
    let one = EntryMetadata { uid: 5, gid: 0, mode: 0o600 };
    let other = EntryMetadata { uid: 4_000_000_001, gid: 0, mode: 0o7777 };
    assert_eq!(group(Ok(one)), group(Ok(other)));
}
