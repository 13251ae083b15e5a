//! The permissions of an entry: one nibble each for the owning user, the
//! owning group and everyone else, and their packing into twelve bits.
//!
//! In each nibble bit 0 is read, bit 1 write, bit 2 execute and bit 3 the
//! special bit of the class: set-user-id, set-group-id or sticky.

use super::errors::FsError;
use super::fs::EntryMetadata;
use super::nibble::Nibble;
use std::io::ErrorKind;
use vstd::prelude::*;

verus! {

/// The permissions of the three classes.
#[derive(Clone, Copy, Debug, PartialEq, Eq, Structural)]
pub struct PermissionSet {
    pub user_permissions: Nibble,
    pub group_permissions: Nibble,
    pub other_permissions: Nibble,
}

/// No permission at all.
pub const PERMISSION_NONE: Nibble = Nibble::B0000;

/// The read flag: bit 0.
pub const PERMISSION_READ: Nibble = Nibble::B0001;

/// The write flag: bit 1.
pub const PERMISSION_WRITE: Nibble = Nibble::B0010;

/// The execute flag: bit 2.
pub const PERMISSION_EXECUTE: Nibble = Nibble::B0100;

/// The special flag of a class: bit 3.
pub const PERMISSION_SPECIAL: Nibble = Nibble::B1000;

/// True where `mode` has every bit of `mask`.
pub open spec fn has_all_bits(mode: u32, mask: u32) -> bool {
    mode & mask == mask
}

/// The weight of a flag in a nibble: `weight` where the flag is set, else 0.
pub open spec fn flag_weight(flag: bool, weight: int) -> int {
    if flag {
        weight
    } else {
        0
    }
}

/// The nibble of four flags: read weighs 1, write 2, execute 4 and the
/// special flag 8.
pub open spec fn flags_nibble(read: bool, write: bool, execute: bool, special: bool) -> Nibble {
    Nibble::with_value(
        (flag_weight(read, 1) + flag_weight(write, 2) + flag_weight(execute, 4) + flag_weight(
            special,
            8,
        )) as u8,
    )
}

/// The permissions that `mode` grants to one class, given the four masks of
/// the class. A flag is set only where `mode` has every bit of its mask.
pub open spec fn class_permissions(
    mode: u32,
    read_perm: u32,
    write_perm: u32,
    exec_perm: u32,
    special: u32,
) -> Nibble {
    flags_nibble(
        has_all_bits(mode, read_perm),
        has_all_bits(mode, write_perm),
        has_all_bits(mode, exec_perm),
        has_all_bits(mode, special),
    )
}

impl PermissionSet {
    /// The permissions that a raw mode grants, by the POSIX mode bits.
    pub open spec fn of_mode(raw_mode: u32) -> PermissionSet {
        PermissionSet {
            user_permissions: class_permissions(raw_mode, 0o400, 0o200, 0o100, 0o4000),
            group_permissions: class_permissions(raw_mode, 0o040, 0o020, 0o010, 0o2000),
            other_permissions: class_permissions(raw_mode, 0o004, 0o002, 0o001, 0o1000),
        }
    }

    /// The three nibbles in one number: the user's in bits 8 to 11, the
    /// group's in bits 4 to 7, the others' in bits 0 to 3.
    pub open spec fn packed(self) -> u16 {
        ((self.user_permissions.value() as u16) << 8) | ((self.group_permissions.value() as u16)
            << 4) | (self.other_permissions.value() as u16)
    }

    /// Reads the permissions of the three classes from a raw mode.
    pub fn from_mode(raw_mode: u32) -> (permissions: PermissionSet)
        ensures
            permissions == PermissionSet::of_mode(raw_mode),
    {
        let user_permissions = unwrap_permissions(
            raw_mode,
            owner_read_mask(),
            owner_write_mask(),
            owner_execute_mask(),
            set_user_id_mask(),
        );
        let group_permissions = unwrap_permissions(
            raw_mode,
            group_read_mask(),
            group_write_mask(),
            group_execute_mask(),
            set_group_id_mask(),
        );
        let other_permissions = unwrap_permissions(
            raw_mode,
            other_read_mask(),
            other_write_mask(),
            other_execute_mask(),
            sticky_mask(),
        );
        PermissionSet { user_permissions, group_permissions, other_permissions }
    }

    /// Packs the three nibbles into twelve bits.
    pub fn encode(self: &PermissionSet) -> (result: u16)
        ensures
            result == self.packed(),
            result == self.user_permissions.value() * 256 + self.group_permissions.value() * 16
                + self.other_permissions.value(),
            result <= 0x0FFF,
    {
        let mut result: u16 = 0;

        let user_perms: u16 = self.user_permissions.to_u4().into();
        let group_perms: u16 = self.group_permissions.to_u4().into();
        let other_perms: u16 = self.other_permissions.to_u4().into();

        result = result + user_perms;
        assert(user_perms << 4 == user_perms * 16) by (bit_vector)
            requires
                user_perms <= 15,
        ;
        result = result << 4;
        result = result + group_perms;
        assert(result << 4 == result * 16) by (bit_vector)
            requires
                result <= 255,
        ;
        result = result << 4;
        result = result + other_perms;
        assert(result & 0x0FFF == result) by (bit_vector)
            requires
                result <= 0x0FFF,
        ;
        assert(user_perms * 256 + group_perms * 16 + other_perms == (user_perms << 8) | (group_perms
            << 4) | other_perms) by (bit_vector)
            requires
                user_perms <= 15,
                group_perms <= 15,
                other_perms <= 15,
        ;
        result = result & 0x0FFFu16;

        result
    }
}

/// `libc::S_IRUSR`, the read bit of the owning user: octal 400.
#[verifier::external_body]
fn owner_read_mask() -> (mask: u32)
    ensures
        mask == 0o400u32,
{
    u32::from(libc::S_IRUSR)
}

/// `libc::S_IWUSR`, the write bit of the owning user: octal 200.
#[verifier::external_body]
fn owner_write_mask() -> (mask: u32)
    ensures
        mask == 0o200u32,
{
    u32::from(libc::S_IWUSR)
}

/// `libc::S_IXUSR`, the execute bit of the owning user: octal 100.
#[verifier::external_body]
fn owner_execute_mask() -> (mask: u32)
    ensures
        mask == 0o100u32,
{
    u32::from(libc::S_IXUSR)
}

/// `libc::S_ISUID`, the set-user-id bit: octal 4000.
#[verifier::external_body]
fn set_user_id_mask() -> (mask: u32)
    ensures
        mask == 0o4000u32,
{
    u32::from(libc::S_ISUID)
}

/// `libc::S_IRGRP`, the read bit of the owning group: octal 040.
#[verifier::external_body]
fn group_read_mask() -> (mask: u32)
    ensures
        mask == 0o040u32,
{
    u32::from(libc::S_IRGRP)
}

/// `libc::S_IWGRP`, the write bit of the owning group: octal 020.
#[verifier::external_body]
fn group_write_mask() -> (mask: u32)
    ensures
        mask == 0o020u32,
{
    u32::from(libc::S_IWGRP)
}

/// `libc::S_IXGRP`, the execute bit of the owning group: octal 010.
#[verifier::external_body]
fn group_execute_mask() -> (mask: u32)
    ensures
        mask == 0o010u32,
{
    u32::from(libc::S_IXGRP)
}

/// `libc::S_ISGID`, the set-group-id bit: octal 2000.
#[verifier::external_body]
fn set_group_id_mask() -> (mask: u32)
    ensures
        mask == 0o2000u32,
{
    u32::from(libc::S_ISGID)
}

/// `libc::S_IROTH`, the read bit of everyone else: octal 004.
#[verifier::external_body]
fn other_read_mask() -> (mask: u32)
    ensures
        mask == 0o004u32,
{
    u32::from(libc::S_IROTH)
}

/// `libc::S_IWOTH`, the write bit of everyone else: octal 002.
#[verifier::external_body]
fn other_write_mask() -> (mask: u32)
    ensures
        mask == 0o002u32,
{
    u32::from(libc::S_IWOTH)
}

/// `libc::S_IXOTH`, the execute bit of everyone else: octal 001.
#[verifier::external_body]
fn other_execute_mask() -> (mask: u32)
    ensures
        mask == 0o001u32,
{
    u32::from(libc::S_IXOTH)
}

/// `libc::S_ISVTX`, the sticky bit: octal 1000.
#[verifier::external_body]
fn sticky_mask() -> (mask: u32)
    ensures
        mask == 0o1000u32,
{
    u32::from(libc::S_ISVTX)
}

/// The permissions that `mode` grants to one class, given the four masks of
/// the class.
pub fn unwrap_permissions(
    mode: u32,
    read_perm: u32,
    write_perm: u32,
    exec_perm: u32,
    special: u32,
) -> (permission: Nibble)
    ensures
        permission == class_permissions(mode, read_perm, write_perm, exec_perm, special),
{
    let mut permission: Nibble = PERMISSION_NONE;

    if mode & read_perm == read_perm {
        permission = permission | PERMISSION_READ;
        assert(0u8 | 1u8 == 1u8) by (bit_vector);
    }
    let ghost low = permission.value();

    if mode & write_perm == write_perm {
        permission = permission | PERMISSION_WRITE;
        assert(low | 2u8 == low + 2) by (bit_vector)
            requires
                low <= 1,
        ;
    }
    let ghost low = permission.value();

    if mode & exec_perm == exec_perm {
        permission = permission | PERMISSION_EXECUTE;
        assert(low | 4u8 == low + 4) by (bit_vector)
            requires
                low <= 3,
        ;
    }
    let ghost low = permission.value();

    if mode & special == special {
        permission = permission | PERMISSION_SPECIAL;
        assert(low | 8u8 == low + 8) by (bit_vector)
            requires
                low <= 7,
        ;
    }

    permission
}

/// The permissions of an entry for each outcome of reading its metadata.
pub open spec fn permissions_outcome(metadata: Result<EntryMetadata, ErrorKind>) -> Result<
    PermissionSet,
    FsError,
> {
    match metadata {
        Ok(metadata) => Ok(PermissionSet::of_mode(metadata.mode)),
        Err(_) => Err(FsError::UnknownError),
    }
}

/// The permissions of an entry, from the outcome of reading its metadata.
///
/// Where the metadata was read, the permissions are those of its mode. Where
/// the read failed, the error is `FsError::UnknownError`, whatever the kind
/// of the I/O error.
pub fn get_permissions(metadata: Result<EntryMetadata, ErrorKind>) -> (result: Result<
    PermissionSet,
    FsError,
>)
    ensures
        result == permissions_outcome(metadata),
{
    match metadata {
        Ok(metadata) => {
            let permission_set_mode: u32 = metadata.mode;
            Ok(PermissionSet::from_mode(permission_set_mode))
        },
        Err(_) => Err(FsError::UnknownError),
    }
}

/// Each flag is one bit of the nibble: read is bit 0, write bit 1, execute
/// bit 2 and the special flag bit 3.
pub proof fn lemma_flag_bits(read: bool, write: bool, execute: bool, special: bool)
    ensures
        read <==> flags_nibble(read, write, execute, special).value() & 0b0001 == 0b0001,
        write <==> flags_nibble(read, write, execute, special).value() & 0b0010 == 0b0010,
        execute <==> flags_nibble(read, write, execute, special).value() & 0b0100 == 0b0100,
        special <==> flags_nibble(read, write, execute, special).value() & 0b1000 == 0b1000,
{
    let value = flags_nibble(read, write, execute, special).value();
    assert(value <= 15 ==> ((value & 0b0001 == 0b0001) <==> value % 2 == 1) && ((value & 0b0010
        == 0b0010) <==> (value / 2) % 2 == 1) && ((value & 0b0100 == 0b0100) <==> (value / 4) % 2
        == 1) && ((value & 0b1000 == 0b1000) <==> value / 8 == 1)) by (bit_vector);
}

/// The packed value of any three nibbles fits in twelve bits.
pub proof fn lemma_packed_fits_twelve_bits(permissions: PermissionSet)
    ensures
        permissions.packed() <= 0x0FFF,
{
    let u = permissions.user_permissions.value() as u16;
    let g = permissions.group_permissions.value() as u16;
    let o = permissions.other_permissions.value() as u16;
    assert((u << 8) | (g << 4) | o <= 0x0FFF) by (bit_vector)
        requires
            u <= 15,
            g <= 15,
            o <= 15,
    ;
}

/// Whatever the raw mode, the packed value of its permissions fits in twelve
/// bits.
pub proof fn lemma_mode_packs_into_twelve_bits(raw_mode: u32)
    ensures
        PermissionSet::of_mode(raw_mode).packed() <= 0x0FFF,
{
    lemma_packed_fits_twelve_bits(PermissionSet::of_mode(raw_mode));
}

/// Shifting and masking the packed value gives back the three nibbles, bit
/// for bit.
pub proof fn lemma_unpacking_recovers_nibbles(permissions: PermissionSet)
    ensures
        (permissions.packed() >> 8) & 0x0F == permissions.user_permissions.value(),
        (permissions.packed() >> 4) & 0x0F == permissions.group_permissions.value(),
        permissions.packed() & 0x0F == permissions.other_permissions.value(),
        Nibble::from_byte(((permissions.packed() >> 8) & 0x0F) as u8)
            == permissions.user_permissions,
        Nibble::from_byte(((permissions.packed() >> 4) & 0x0F) as u8)
            == permissions.group_permissions,
        Nibble::from_byte((permissions.packed() & 0x0F) as u8) == permissions.other_permissions,
{
    let u = permissions.user_permissions.value() as u16;
    let g = permissions.group_permissions.value() as u16;
    let o = permissions.other_permissions.value() as u16;
    let packed = (u << 8) | (g << 4) | o;
    assert((packed >> 8) & 0x0F == u && (packed >> 4) & 0x0F == g && packed & 0x0F == o)
        by (bit_vector)
        requires
            packed == (u << 8) | (g << 4) | o,
            u <= 15,
            g <= 15,
            o <= 15,
    ;
    super::nibble::lemma_value_round_trip(permissions.user_permissions);
    super::nibble::lemma_value_round_trip(permissions.group_permissions);
    super::nibble::lemma_value_round_trip(permissions.other_permissions);
}

} // verus!
