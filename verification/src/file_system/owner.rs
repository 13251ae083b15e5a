//! The names of the user and the group that own an entry.
//!
//! The ids come from the metadata of the entry; the names come from the
//! system's user and group databases.

use super::errors::{FsError, PosixFsError};
use super::fs::EntryMetadata;
use std::io::ErrorKind;
use std::string::String;
use users::{get_group_by_gid, get_user_by_uid, Group, User};
use vstd::prelude::*;

verus! {

/// `users::User`, carried through as an opaque value.
#[verifier::external_type_specification]
#[verifier::external_body]
pub struct ExUser(users::User);

/// `users::Group`, carried through as an opaque value.
#[verifier::external_type_specification]
#[verifier::external_body]
pub struct ExGroup(users::Group);

/// `users::get_user_by_uid` searches the system's user database. What it
/// finds depends on the system, so nothing is claimed of its result.
pub assume_specification[ users::get_user_by_uid ](uid: libc::uid_t) -> Option<User>;

/// `users::get_group_by_gid` searches the system's group database. What it
/// finds depends on the system, so nothing is claimed of its result.
pub assume_specification[ users::get_group_by_gid ](gid: libc::gid_t) -> Option<Group>;

/// `users::User::name`, read as text by `to_str`: `None` where the name is
/// not valid UTF-8. Nothing is claimed of the text.
#[verifier::external_body]
fn user_name_text(user: &User) -> (name: Option<&str>) {
    user.name().to_str()
}

/// `users::Group::name`, read as text by `to_str`: `None` where the name is
/// not valid UTF-8. Nothing is claimed of the text.
#[verifier::external_body]
fn group_name_text(group: &Group) -> (name: Option<&str>) {
    group.name().to_str()
}

/// What a database answered when it was asked for the name of an id.
#[derive(Debug, PartialEq, Eq)]
pub enum NameLookup {
    /// The database has no entry for the id.
    NoEntry,
    /// The database has an entry, and its name is not valid text.
    NameNotText,
    /// The name of the entry.
    Name(String),
}

/// Asks the user database for the name of `user_id`. The answer is the system's: nothing binds it.
pub fn lookup_user(user_id: u32) -> NameLookup {
    let user_name = get_user_by_uid(user_id);
    match user_name {
        Some(user) => {
            let name_result = user_name_text(&user);
            match name_result {
                Some(name) => NameLookup::Name(name.to_owned()),
                None => NameLookup::NameNotText,
            }
        },
        None => NameLookup::NoEntry,
    }
}

/// Asks the group database for the name of `group_id`. The answer is the system's: nothing binds it.
pub fn lookup_group(group_id: u32) -> NameLookup {
    let group_name = get_group_by_gid(group_id);
    match group_name {
        Some(group) => {
            let name_result = group_name_text(&group);
            match name_result {
                Some(name) => NameLookup::Name(name.to_owned()),
                None => NameLookup::NameNotText,
            }
        },
        None => NameLookup::NoEntry,
    }
}

/// The result of the user query for each answer of the user database.
pub open spec fn user_outcome(lookup: NameLookup) -> Result<String, PosixFsError> {
    match lookup {
        NameLookup::Name(name) => Ok(name),
        NameLookup::NameNotText => Err(PosixFsError::FsErr(FsError::OsStringConversion)),
        NameLookup::NoEntry => Err(PosixFsError::FsErr(FsError::UserNotFound)),
    }
}

/// The result of the group query for each answer of the group database.
pub open spec fn group_outcome(lookup: NameLookup) -> Result<String, PosixFsError> {
    match lookup {
        NameLookup::Name(name) => Ok(name),
        NameLookup::NameNotText => Err(PosixFsError::FsErr(FsError::OsStringConversion)),
        NameLookup::NoEntry => Err(PosixFsError::FsErr(FsError::GroupNotFound)),
    }
}

/// The result of the user query, from the answer of the user database: the
/// name where there is one, `UserNotFound` where the database has no entry,
/// and `OsStringConversion` where the name of the entry is not valid text.
pub fn user_from_lookup(lookup: NameLookup) -> (result: Result<String, PosixFsError>)
    ensures
        result == user_outcome(lookup),
{
    match lookup {
        NameLookup::Name(name) => Ok(name),
        NameLookup::NameNotText => Err(PosixFsError::FsErr(FsError::OsStringConversion)),
        NameLookup::NoEntry => Err(PosixFsError::FsErr(FsError::UserNotFound)),
    }
}

/// The result of the group query, from the answer of the group database: the
/// name where there is one, `GroupNotFound` where the database has no entry,
/// and `OsStringConversion` where the name of the entry is not valid text.
pub fn group_from_lookup(lookup: NameLookup) -> (result: Result<String, PosixFsError>)
    ensures
        result == group_outcome(lookup),
{
    match lookup {
        NameLookup::Name(name) => Ok(name),
        NameLookup::NameNotText => Err(PosixFsError::FsErr(FsError::OsStringConversion)),
        NameLookup::NoEntry => Err(PosixFsError::FsErr(FsError::GroupNotFound)),
    }
}

/// The name of the user that owns an entry, from the outcome of reading the
/// metadata of the entry.
///
/// Where the read failed, the error carries the kind of the I/O error and
/// the user database is not asked. Where it succeeded, `lookup_user` is
/// called once, with the owning user id, and the result is `user_outcome` of
/// what it answers.
pub fn user(metadata: Result<EntryMetadata, ErrorKind>) -> (result: Result<String, PosixFsError>)
    ensures
        metadata matches Err(kind) ==> result == Err::<String, PosixFsError>(
            PosixFsError::IoErr(kind),
        ),
        metadata matches Ok(entry) ==> exists|lookup: NameLookup|
            call_ensures(lookup_user, (entry.uid,), lookup) && result == user_outcome(lookup),
{
    match metadata {
        Ok(metadata) => {
            let user_id = metadata.uid;
            let ask = lookup_user;
            let lookup = ask(user_id);
            user_from_lookup(lookup)
        },
        Err(io_error) => {
            let resulting_error = PosixFsError::IoErr(io_error);
            Err(resulting_error)
        },
    }
}

/// The name of the group that owns an entry, from the outcome of reading the
/// metadata of the entry.
///
/// Where the read failed, the error carries the kind of the I/O error and
/// the group database is not asked. Where it succeeded, `lookup_group` is
/// called once, with the owning group id, and the result is `group_outcome`
/// of what it answers.
pub fn group(metadata: Result<EntryMetadata, ErrorKind>) -> (result: Result<String, PosixFsError>)
    ensures
        metadata matches Err(kind) ==> result == Err::<String, PosixFsError>(
            PosixFsError::IoErr(kind),
        ),
        metadata matches Ok(entry) ==> exists|lookup: NameLookup|
            call_ensures(lookup_group, (entry.gid,), lookup) && result == group_outcome(lookup),
{
    match metadata {
        Ok(metadata) => {
            let group_id = metadata.gid;
            let ask = lookup_group;
            let lookup = ask(group_id);
            group_from_lookup(lookup)
        },
        Err(io_error) => {
            let resulting_error = PosixFsError::IoErr(io_error);
            Err(resulting_error)
        },
    }
}

} // verus!
