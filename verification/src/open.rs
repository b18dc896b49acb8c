//! How the two files of a clone are opened.

use crate::error::{CopyError, CopyErrorView, OsError};
use vstd::prelude::*;

verus! {

/// Which of the two files of a clone is meant.
#[derive(Debug, Clone, Copy, PartialEq, Eq, Structural)]
pub enum Role {
    /// The file that receives the clone.
    Destination,
    /// The file that is cloned.
    Source,
}

/// The way in which a file is opened.
#[derive(Debug, Clone, Copy, PartialEq, Eq, Structural)]
pub struct OpenMode {
    /// Open for reading.
    pub read: bool,
    /// Open for writing.
    pub write: bool,
    /// Create the file where the path names none.
    pub create: bool,
    /// Cut an existing file down to no bytes.
    pub truncate: bool,
    /// Fail where the path names an existing file.
    pub exclusive: bool,
    /// Where the path names a symbolic link, open the file it leads to.
    pub follow_links: bool,
    /// The permission bits asked for a file that the call creates, before
    /// the process's mask is taken off.
    pub permissions: u32,
}

/// The mode in which the file of each role is opened. The source is only
/// read. The destination is read and written, and created where it is
/// absent: it is neither truncated, since the clone itself replaces what the
/// file holds, nor required to be new. Both follow symbolic links, and a new
/// destination is asked with the permissions `rw-rw-rw-`.
pub open spec fn mode_of(role: Role) -> OpenMode {
    OpenMode {
        read: true,
        write: role == Role::Destination,
        create: role == Role::Destination,
        truncate: false,
        exclusive: false,
        follow_links: true,
        permissions: 0o666,
    }
}

/// The mode in which to open the file of the given role.
pub fn open_mode(role: Role) -> (mode: OpenMode)
    ensures
        mode == mode_of(role),
{
    match role {
        Role::Destination => OpenMode {
            read: true,
            write: true,
            create: true,
            truncate: false,
            exclusive: false,
            follow_links: true,
            permissions: 0o666,
        },
        Role::Source => OpenMode {
            read: true,
            write: false,
            create: false,
            truncate: false,
            exclusive: false,
            follow_links: true,
            permissions: 0o666,
        },
    }
}

/// What an attempt to open the file at `path` comes to: a refusal by the
/// operating system becomes a `FileOpenError` that names the path.
pub fn open_outcome(path: String, opened: Result<(), OsError>) -> (outcome: Result<(), CopyError>)
    ensures
        opened is Ok ==> outcome is Ok,
        opened is Err ==> outcome is Err && outcome->Err_0@ == CopyErrorView::FileOpenError(
            path@,
            opened->Err_0@,
        ),
{
    match opened {
        Ok(()) => Ok(()),
        Err(why) => Err(CopyError::FileOpenError(path, why)),
    }
}

} // verus!
