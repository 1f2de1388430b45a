//! The typed operation records: one struct per known opcode, each holding a
//! strict subset of the command's decoded attributes.

use vstd::prelude::*;
use crate::reader::CommandHeader;
use crate::tlv::{TLVData, Timespec, Uuid};

verus! {

/// A command whose opcode the decoder does not recognize: the header and the
/// raw attribute bag, kept untouched for forward compatibility.
#[derive(Clone, Debug)]
pub struct Unknown {
    pub header: CommandHeader,
    pub data: TLVData,
}

/// Creation of a subvolume.
#[derive(Clone, Debug, Default)]
pub struct Subvol {
    pub path: String,
    pub uuid: Uuid,
    pub ctransid: u64,
}

/// Creation of a snapshot from a clone source.
#[derive(Clone, Debug, Default)]
pub struct Snapshot {
    pub path: String,
    pub uuid: Uuid,
    pub ctransid: u64,
    pub clone_uuid: Uuid,
    pub clone_ctransid: u64,
}

/// Creation of a regular file.
#[derive(Clone, Debug, Default)]
pub struct MkFile {
    pub path: String,
}

/// Creation of a directory.
#[derive(Clone, Debug, Default)]
pub struct MkDir {
    pub path: String,
}

/// Creation of a device node.
#[derive(Clone, Debug, Default)]
pub struct MkNod {
    pub path: String,
    pub mode: u64,
    pub rdev: u64,
}

/// Creation of a named pipe.
#[derive(Clone, Debug, Default)]
pub struct MkFifo {
    pub path: String,
}

/// Creation of a socket.
#[derive(Clone, Debug, Default)]
pub struct MkSock {
    pub path: String,
}

/// Creation of a symbolic link.
#[derive(Clone, Debug, Default)]
pub struct SymLink {
    pub path: String,
    pub path_link: String,
}

/// A rename from `path` to `path_to`.
#[derive(Clone, Debug, Default)]
pub struct Rename {
    pub path: String,
    pub path_to: String,
}

/// Creation of a hard link.
#[derive(Clone, Debug, Default)]
pub struct Link {
    pub path: String,
    pub path_link: String,
}

/// Removal of a file.
#[derive(Clone, Debug, Default)]
pub struct UnLink {
    pub path: String,
}

/// Removal of a directory.
#[derive(Clone, Debug, Default)]
pub struct RmDir {
    pub path: String,
}

/// A write of raw bytes at a file offset.
#[derive(Clone, Debug, Default)]
pub struct Write {
    pub path: String,
    pub file_offset: u64,
    pub data: Vec<u8>,
}

/// Sharing of an extent from a clone source.
#[derive(Clone, Debug, Default)]
pub struct Clone {
    pub path: String,
    pub file_offset: u64,
    pub clone_len: u64,
    pub clone_uuid: Uuid,
    pub clone_ctransid: u64,
    pub clone_path: String,
    pub clone_offset: u64,
}

/// Setting of an extended attribute.
#[derive(Clone, Debug, Default)]
pub struct SetXattr {
    pub path: String,
    pub xattr_name: String,
    pub xattr_data: Vec<u8>,
}

/// Removal of an extended attribute.
#[derive(Clone, Debug, Default)]
pub struct RemoveXattr {
    pub path: String,
    pub xattr_name: String,
}

/// Truncation of a file to a size.
#[derive(Clone, Debug, Default)]
pub struct Truncate {
    pub path: String,
    pub size: u64,
}

/// A permissions change.
#[derive(Clone, Debug, Default)]
pub struct Chmod {
    pub path: String,
    pub mode: u64,
}

/// An ownership change.
#[derive(Clone, Debug, Default)]
pub struct Chown {
    pub path: String,
    pub uid: u64,
    pub gid: u64,
}

/// A change of the three file times.
#[derive(Clone, Debug, Default)]
pub struct Utimes {
    pub path: String,
    pub atime: Timespec,
    pub mtime: Timespec,
    pub ctime: Timespec,
}

/// An extent update without inline data.
#[derive(Clone, Debug, Default)]
pub struct UpdateExtent {
    pub path: String,
    pub file_offset: u64,
    pub size: u64,
}

/// The end of the transaction: the stream's explicit terminator.
#[derive(Clone, Debug, Default)]
pub struct End {
}

} // verus!
