//! The failures of a query and the sixteen-bit codes that stand for them.
//!
//! The code space is cut into bands. Codes below `FS_ERROR_OFFSET` belong to
//! the boundary itself, and the flat `NUMERIC_CONVERSION_OFFSET` lies among
//! them. Every file-system error lies in the band that starts at
//! `FS_ERROR_OFFSET`, every I/O error in the band that starts at
//! `IO_ERROR_OFFSET`.

use std::io::ErrorKind;
use vstd::prelude::*;

verus! {

/// `std::io::ErrorKind`, with the variants that std declares for it.
#[verifier::external_type_specification]
pub struct ExErrorKind(std::io::ErrorKind);

/// Start of the band of file-system errors.
pub const FS_ERROR_OFFSET: u16 = 0x1000u16;

/// Start of the band of I/O errors.
pub const IO_ERROR_OFFSET: u16 = 0x2000u16;

/// The one code of every numeric conversion error: octal 4000. It lies below
/// both bands, so no file-system or I/O error shares it.
pub const NUMERIC_CONVERSION_OFFSET: u16 = 0o4000u16;

/// The failures of the file-system domain. The numbers and descriptions are
/// fixed here, one pair for each variant.
#[derive(Clone, Copy, Debug, PartialEq, Eq, Structural)]
pub enum FsError {
    UserNotFound,
    GroupNotFound,
    OsStringConversion,
    UnknownError,
}

impl FsError {
    /// The number of the variant.
    pub open spec fn code(self) -> u16 {
        match self {
            FsError::UserNotFound => 1,
            FsError::GroupNotFound => 2,
            FsError::OsStringConversion => 3,
            FsError::UnknownError => 4,
        }
    }

    /// The description of the variant, as a sequence of characters.
    pub open spec fn description_text(self) -> Seq<char> {
        match self {
            FsError::UserNotFound => "no user has the owning user id"@,
            FsError::GroupNotFound => "no group has the owning group id"@,
            FsError::OsStringConversion => "the name is not valid text"@,
            FsError::UnknownError => "unknown error"@,
        }
    }

    /// The description of the variant, for a human reader.
    pub fn description(&self) -> (text: &'static str)
        ensures
            text@ == self.description_text(),
    {
        match self {
            FsError::UserNotFound => "no user has the owning user id",
            FsError::GroupNotFound => "no group has the owning group id",
            FsError::OsStringConversion => "the name is not valid text",
            FsError::UnknownError => "unknown error",
        }
    }
}

impl std::convert::From<FsError> for u16 {
    fn from(fs_error: FsError) -> (code: u16)
        ensures
            code == fs_error.code(),
            code < FS_ERROR_OFFSET,
    {
        match fs_error {
            FsError::UserNotFound => 1u16,
            FsError::GroupNotFound => 2u16,
            FsError::OsStringConversion => 3u16,
            FsError::UnknownError => 4u16,
        }
    }
}

impl vstd::std_specs::convert::FromSpecImpl<FsError> for u16 {
    open spec fn obeys_from_spec() -> bool {
        true
    }

    open spec fn from_spec(fs_error: FsError) -> u16 {
        fs_error.code()
    }
}

/// What went wrong in a query: a failure of the file-system domain, the kind
/// of an I/O error, or a number that did not fit its target type.
#[derive(Clone, Copy, Debug, PartialEq, Eq)]
pub enum PosixFsError {
    FsErr(FsError),
    IoErr(ErrorKind),
    NumericConversion(u32),
}

/// The number of an I/O error kind within its band. Eight kinds have a number
/// of their own; every other kind is numbered 64.
pub open spec fn io_error_code(error: ErrorKind) -> u16 {
    match error {
        ErrorKind::NotFound => 0,
        ErrorKind::PermissionDenied => 1,
        ErrorKind::BrokenPipe => 2,
        ErrorKind::InvalidInput => 3,
        ErrorKind::InvalidData => 4,
        ErrorKind::Interrupted => 5,
        ErrorKind::UnexpectedEof => 6,
        ErrorKind::TimedOut => 7,
        _ => 64,
    }
}

impl PosixFsError {
    /// The outward code of the error: the number of a file-system error above
    /// `FS_ERROR_OFFSET`, the number of an I/O error kind above
    /// `IO_ERROR_OFFSET`, or the flat `NUMERIC_CONVERSION_OFFSET`.
    pub open spec fn outward_code(self) -> u16 {
        match self {
            PosixFsError::FsErr(err) => (FS_ERROR_OFFSET + err.code()) as u16,
            PosixFsError::IoErr(err) => (IO_ERROR_OFFSET + io_error_code(err)) as u16,
            PosixFsError::NumericConversion(_) => NUMERIC_CONVERSION_OFFSET,
        }
    }
}

impl std::convert::From<PosixFsError> for u16 {
    fn from(posix_fs_error: PosixFsError) -> (code: u16)
        ensures
            code == posix_fs_error.outward_code(),
    {
        match posix_fs_error {
            PosixFsError::FsErr(err) => {
                let fs_error_code: u16 = err.into();
                fs_error_code + FS_ERROR_OFFSET
            },
            PosixFsError::IoErr(err) => {
                let io_err_code: u16 = io_error_to_u16(err);
                io_err_code + IO_ERROR_OFFSET
            },
            PosixFsError::NumericConversion(_) => NUMERIC_CONVERSION_OFFSET,
        }
    }
}

impl vstd::std_specs::convert::FromSpecImpl<PosixFsError> for u16 {
    open spec fn obeys_from_spec() -> bool {
        true
    }

    open spec fn from_spec(posix_fs_error: PosixFsError) -> u16 {
        posix_fs_error.outward_code()
    }
}

/// The number of an I/O error kind within its band.
pub fn io_error_to_u16(error: ErrorKind) -> (code: u16)
    ensures
        code == io_error_code(error),
        code <= 64,
{
    match error {
        ErrorKind::NotFound => 0u16,
        ErrorKind::PermissionDenied => 1u16,
        ErrorKind::BrokenPipe => 2u16,
        ErrorKind::InvalidInput => 3u16,
        ErrorKind::InvalidData => 4u16,
        ErrorKind::Interrupted => 5u16,
        ErrorKind::UnexpectedEof => 6u16,
        ErrorKind::TimedOut => 7u16,
        _ => 64u16,
    }
}

/// No two file-system errors share a number, and every number lies below the
/// band's width.
pub proof fn lemma_fs_error_codes_distinct(a: FsError, b: FsError)
    ensures
        a.code() < 0x1000,
        a.code() == b.code() ==> a == b,
{
}

/// The band of an outward code tells the family of the error: a code from
/// `FS_ERROR_OFFSET` up to `IO_ERROR_OFFSET` is a file-system error, a code
/// from `IO_ERROR_OFFSET` on is an I/O error, and a code below
/// `FS_ERROR_OFFSET` is a numeric conversion error.
pub proof fn lemma_band_tells_family(error: PosixFsError)
    ensures
        error is FsErr <==> FS_ERROR_OFFSET <= error.outward_code() < IO_ERROR_OFFSET,
        error is IoErr <==> IO_ERROR_OFFSET <= error.outward_code(),
        error is NumericConversion <==> error.outward_code() < FS_ERROR_OFFSET,
        error is NumericConversion ==> error.outward_code() == NUMERIC_CONVERSION_OFFSET,
{
}

/// Within the band of file-system errors the code tells the variant.
pub proof fn lemma_fs_outward_codes_distinct(a: FsError, b: FsError)
    ensures
        PosixFsError::FsErr(a).outward_code() == PosixFsError::FsErr(b).outward_code() ==> a == b,
{
}

} // verus!
