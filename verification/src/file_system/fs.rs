//! File-system entries as the queries see them: the path that names an entry
//! and the part of its metadata that the queries read.

use std::path::PathBuf;
use vstd::prelude::*;

verus! {

/// `std::path::PathBuf`, carried through as an opaque value.
#[verifier::external_type_specification]
#[verifier::external_body]
pub struct ExPathBuf(std::path::PathBuf);

/// The path that `PathBuf::from` builds from a text.
pub uninterp spec fn path_of(text: Seq<char>) -> PathBuf;

/// What a query reads of the metadata of an entry: the ids of its owning
/// user and group, and its raw mode.
#[derive(Clone, Copy, Debug, PartialEq, Eq, Structural)]
pub struct EntryMetadata {
    pub uid: u32,
    pub gid: u32,
    pub mode: u32,
}

/// The path that `path` spells.
///
/// Calls `PathBuf::from` on the string slice. The path that comes back
/// depends on the text alone: equal texts give equal paths.
#[verifier::external_body]
pub fn str_to_path(path: &str) -> (result: PathBuf)
    ensures
        result == path_of(path@),
{
    PathBuf::from(path)
}

} // verus!
