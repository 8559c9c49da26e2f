//! Native-platform decisions: which permission bits make a file executable
//! for the current user, and how executables are recognized. The syscalls
//! that read ids and modes or kill processes run outside the library and
//! hand in plain values.

use vstd::prelude::*;
use crate::text;

verus! {

/// The effective user and group of this process.
#[derive(Debug, PartialEq, Eq, Copy, Clone)]
pub struct CurrentUser {
    /// The effective user id.
    pub user_id: u32,
    /// The effective group id.
    pub group_id: u32,
}

/// The executable permission bits that matter for a file: the owner's when
/// the user owns it, the group's when the user's group does, anyone's
/// otherwise. The bits ask for both execute and read.
pub fn executable_mode_for(file_uid: u32, file_gid: u32, user: &CurrentUser) -> (r: u32)
    ensures
        r == (if file_uid == user.user_id {
            0o500u32
        } else if file_gid == user.group_id {
            0o050u32
        } else {
            0o005u32
        }),
{
    if file_uid == user.user_id {
        0o500
    } else if file_gid == user.group_id {
        0o050
    } else {
        0o005
    }
}

/// Whether a file's mode carries all the expected executable bits.
pub fn is_executable(mode: u32, expected: u32) -> (r: bool)
    ensures
        r == ((mode & expected) == expected),
{
    (mode & expected) == expected
}

/// The mode that makes the file executable: the old mode with the expected
/// bits set.
pub fn make_executable(mode: u32, expected: u32) -> (r: u32)
    ensures
        r == (mode | expected),
{
    mode | expected
}

/// Whether a path names a Windows executable by its extension.
pub fn path_ends_in_exe(path: &str) -> (r: bool)
    ensures
        r == text::ends_with_spec(path@, ".exe"@),
{
    text::ends_with(path, ".exe")
}

} // verus!
