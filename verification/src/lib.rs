//! POSIX file metadata for foreign callers: the owning user and group of a
//! file-system entry and its permission bits, delivered as byte strings and
//! packed integers together with a sixteen-bit result code.
//!
//! A query runs in two halves around the reading of the entry's metadata,
//! which the caller does. `fs_entry_path` checks the pointers and decodes the
//! path. One of `fs_owning_user_name`, `fs_owning_group_name` and
//! `fs_permissions` then takes the outcome of the read and delivers the
//! answer. A pointer that may be null is an `Option`, and foreign memory is a
//! byte slice.

pub mod file_system;

use file_system::errors::PosixFsError;
use file_system::fs::{path_of, str_to_path, EntryMetadata};
use file_system::marshal::{
    buffer_with_text, c_string_to_str, foreign_text, memory_view, str_to_c_string,
};
use file_system::owner::{
    group, group_outcome, lookup_group, lookup_user, user, user_outcome, NameLookup,
};
use file_system::perms::{get_permissions, permissions_outcome, PermissionSet};
use std::io::ErrorKind;
use std::path::PathBuf;
use std::string::String;
use vstd::prelude::*;
use vstd::string::StringSliceAdditionalSpecFns;
use vstd::utf8::encode_utf8;

verus! {

/// How a query ended, as the boundary reports it.
#[derive(Clone, Copy, Debug, PartialEq, Eq, Structural)]
pub enum FileSystemQueryResult {
    Success,
    NoResult,
    ParameterIsNull,
    StringConversionError,
}

/// The code of each way a query can end: 0, 1, 17 and 18.
pub open spec fn result_code(value: FileSystemQueryResult) -> u16 {
    match value {
        FileSystemQueryResult::Success => 0,
        FileSystemQueryResult::NoResult => 1,
        FileSystemQueryResult::ParameterIsNull => 17,
        FileSystemQueryResult::StringConversionError => 18,
    }
}

/// The code that is handed to the foreign caller.
pub fn fsqr_as_u16(value: FileSystemQueryResult) -> (code: u16)
    ensures
        code == result_code(value),
{
    match value {
        FileSystemQueryResult::Success => 0u16,
        FileSystemQueryResult::NoResult => 1u16,
        FileSystemQueryResult::ParameterIsNull => 17u16,
        FileSystemQueryResult::StringConversionError => 18u16,
    }
}

/// The first half of a query, as a function of its arguments: the code 17
/// where a pointer is null, else the code 18 where the entry's path cannot be
/// decoded, else the path.
pub open spec fn entry_path_outcome(fs_entry: Option<Seq<u8>>, output_is_null: bool) -> Result<
    PathBuf,
    u16,
> {
    if fs_entry is None || output_is_null {
        Err(result_code(FileSystemQueryResult::ParameterIsNull))
    } else {
        match foreign_text(fs_entry) {
            Some(text) => Ok(path_of(text)),
            None => Err(result_code(FileSystemQueryResult::StringConversionError)),
        }
    }
}

/// The code of the name queries, from the result of the name lookup and the
/// length of the output buffer: 0 for a name that fits with its terminator,
/// 18 for one that does not, 1 for a failed lookup.
pub open spec fn name_code(name: Result<String, PosixFsError>, capacity: nat) -> u16 {
    match name {
        Ok(text) => if encode_utf8(text@).len() + 1 <= capacity {
            result_code(FileSystemQueryResult::Success)
        } else {
            result_code(FileSystemQueryResult::StringConversionError)
        },
        Err(_) => result_code(FileSystemQueryResult::NoResult),
    }
}

/// The output buffer after a name query: it holds the name and its
/// terminator at its start where the code is 0, else what it held before.
pub open spec fn name_buffer(name: Result<String, PosixFsError>, before: Seq<u8>) -> Seq<u8> {
    match name {
        Ok(text) => if encode_utf8(text@).len() + 1 <= before.len() {
            buffer_with_text(before, text@)
        } else {
            before
        },
        Err(_) => before,
    }
}

/// The code of the permission query for each outcome of reading the
/// metadata.
pub open spec fn permissions_code(metadata: Result<EntryMetadata, ErrorKind>) -> u16 {
    match permissions_outcome(metadata) {
        Ok(_) => result_code(FileSystemQueryResult::Success),
        Err(_) => result_code(FileSystemQueryResult::NoResult),
    }
}

/// The output slot after a permission query: the packed permissions where
/// the metadata was read, else what it held before.
pub open spec fn permissions_slot(metadata: Result<EntryMetadata, ErrorKind>, before: u16) -> u16 {
    match permissions_outcome(metadata) {
        Ok(permissions) => permissions.packed(),
        Err(_) => before,
    }
}

/// The first half of every query: checks the two pointers, then decodes the
/// path of the entry.
///
/// Returns the code 17 where the path pointer or the output pointer is null,
/// whatever the other holds. Else returns the code 18 where the path is not
/// a terminated string of valid UTF-8. Else returns the path, whose metadata
/// the caller reads next.
pub fn fs_entry_path(fs_entry: Option<&[u8]>, output_is_null: bool) -> (step: Result<PathBuf, u16>)
    ensures
        step == entry_path_outcome(memory_view(fs_entry), output_is_null),
{
    if fs_entry.is_none() {
        return Err(fsqr_as_u16(FileSystemQueryResult::ParameterIsNull));
    }
    if output_is_null {
        return Err(fsqr_as_u16(FileSystemQueryResult::ParameterIsNull));
    }
    let file_path_res = c_string_to_str(fs_entry);

    match file_path_res {
        Some(file_path) => {
            let path: PathBuf = str_to_path(file_path.as_str());
            Ok(path)
        },
        None => Err(fsqr_as_u16(FileSystemQueryResult::StringConversionError)),
    }
}

/// Writes the result of a name lookup to the output buffer and returns the
/// code of the query.
///
/// A name that fits with its terminator is written to the start of the
/// buffer as a foreign string, and the code is 0. A name that does not fit
/// is not written, and the code is 18. A failed lookup is the code 1. The
/// buffer changes only where the code is 0.
pub fn fs_deliver_name(name: Result<String, PosixFsError>, fs_name: &mut [u8]) -> (code: u16)
    ensures
        code == name_code(name, old(fs_name)@.len()),
        final(fs_name)@ == name_buffer(name, old(fs_name)@),
{
    match name {
        Ok(text) => {
            if text.as_str().as_bytes().len() >= fs_name.len() {
                return fsqr_as_u16(FileSystemQueryResult::StringConversionError);
            }
            if str_to_c_string(text, Some(fs_name)) {
                return fsqr_as_u16(FileSystemQueryResult::Success);
            }
            fsqr_as_u16(FileSystemQueryResult::StringConversionError)
        },
        Err(_) => fsqr_as_u16(FileSystemQueryResult::NoResult),
    }
}

/// The second half of the query for the name of the owning user.
///
/// `metadata` is the outcome of reading the metadata of the entry, and
/// `fs_user_name` the output buffer. Where the read failed the code is 1.
/// Else `lookup_user` is called once, with the owning user id, and the code
/// and the buffer are those of `fs_deliver_name` for `user_outcome` of what
/// it answers.
pub fn fs_owning_user_name(
    metadata: Result<EntryMetadata, ErrorKind>,
    fs_user_name: &mut [u8],
) -> (code: u16)
    ensures
        metadata is Err ==> code == result_code(FileSystemQueryResult::NoResult),
        metadata is Err ==> final(fs_user_name)@ == old(fs_user_name)@,
        metadata matches Ok(entry) ==> exists|lookup: NameLookup|
            {
                &&& call_ensures(lookup_user, (entry.uid,), lookup)
                &&& code == name_code(#[trigger] user_outcome(lookup), old(fs_user_name)@.len())
                &&& final(fs_user_name)@ == name_buffer(user_outcome(lookup), old(fs_user_name)@)
            },
{
    let user_result: Result<String, PosixFsError> = user(metadata);
    fs_deliver_name(user_result, fs_user_name)
}

/// The second half of the query for the name of the owning group.
///
/// `metadata` is the outcome of reading the metadata of the entry, and
/// `fs_group_name` the output buffer. Where the read failed the code is 1.
/// Else `lookup_group` is called once, with the owning group id, and the
/// code and the buffer are those of `fs_deliver_name` for `group_outcome` of
/// what it answers.
pub fn fs_owning_group_name(
    metadata: Result<EntryMetadata, ErrorKind>,
    fs_group_name: &mut [u8],
) -> (code: u16)
    ensures
        metadata is Err ==> code == result_code(FileSystemQueryResult::NoResult),
        metadata is Err ==> final(fs_group_name)@ == old(fs_group_name)@,
        metadata matches Ok(entry) ==> exists|lookup: NameLookup|
            {
                &&& call_ensures(lookup_group, (entry.gid,), lookup)
                &&& code == name_code(#[trigger] group_outcome(lookup), old(fs_group_name)@.len())
                &&& final(fs_group_name)@ == name_buffer(
                    group_outcome(lookup),
                    old(fs_group_name)@,
                )
            },
{
    let group_result: Result<String, PosixFsError> = group(metadata);
    fs_deliver_name(group_result, fs_group_name)
}

/// The second half of the query for the permissions.
///
/// `metadata` is the outcome of reading the metadata of the entry, and
/// `permission` the output slot. Where the read succeeded the packed
/// permissions are written to the slot and the code is 0. Where it failed
/// the slot keeps its value and the code is 1.
pub fn fs_permissions(metadata: Result<EntryMetadata, ErrorKind>, permission: &mut u16) -> (code:
    u16)
    ensures
        code == permissions_code(metadata),
        *final(permission) == permissions_slot(metadata, *old(permission)),
{
    let permission_result: Result<PermissionSet, file_system::errors::FsError> = get_permissions(
        metadata,
    );
    match permission_result {
        Ok(perm) => {
            *permission = perm.encode();
            fsqr_as_u16(FileSystemQueryResult::Success)
        },
        Err(_err) => fsqr_as_u16(FileSystemQueryResult::NoResult),
    }
}

/// The codes of the boundary differ from one another and from the outward
/// code of every error.
pub proof fn lemma_result_codes_apart(
    value: FileSystemQueryResult,
    other: FileSystemQueryResult,
    error: PosixFsError,
)
    ensures
        result_code(value) == result_code(other) ==> value == other,
        result_code(value) != error.outward_code(),
{
}

/// A name query that runs a second time, on the buffer that the first run
/// left and with the same result of the lookup, returns the same code and
/// leaves the buffer as the first run left it.
pub proof fn lemma_name_query_repeats(name: Result<String, PosixFsError>, before: Seq<u8>)
    ensures
        name_buffer(name, before).len() == before.len(),
        name_code(name, name_buffer(name, before).len()) == name_code(name, before.len()),
        name_buffer(name, name_buffer(name, before)) == name_buffer(name, before),
{
    if let Ok(text) = name {
        let bytes = encode_utf8(text@);
        if bytes.len() + 1 <= before.len() {
            let after = buffer_with_text(before, text@);
            assert(after.skip(bytes.len() as int + 1) =~= before.skip(bytes.len() as int + 1));
        }
    }
}

/// A permission query that runs a second time, on the slot that the first
/// run left and with the same outcome of reading the metadata, returns the
/// same code and leaves the slot as the first run left it.
pub proof fn lemma_permissions_query_repeats(
    metadata: Result<EntryMetadata, ErrorKind>,
    before: u16,
)
    ensures
        permissions_slot(metadata, permissions_slot(metadata, before)) == permissions_slot(
            metadata,
            before,
        ),
{
}

} // verus!
