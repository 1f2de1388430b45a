//! Wire-level constants of the btrfs send stream: the magic signature, the
//! supported version, and the opcode and attribute-key code spaces.

use vstd::prelude::*;

verus! {

/// Length in bytes of the magic signature, including its terminating NUL.
pub const MAGIC_LEN: usize = 13;

/// The magic signature that every stream begins with: the ASCII bytes of
/// `"btrfs-stream"` followed by a NUL.
pub open spec fn spec_magic() -> Seq<u8> {
    seq![98u8, 116u8, 114u8, 102u8, 115u8, 45u8, 115u8, 116u8, 114u8, 101u8, 97u8, 109u8, 0u8]
}

/// The magic signature as a vector, for byte-wise comparison against a stream.
pub fn magic() -> (v: Vec<u8>)
    ensures
        v@ == spec_magic(),
{
    let v: Vec<u8> = vec![98u8, 116u8, 114u8, 102u8, 115u8, 45u8, 115u8, 116u8, 114u8, 101u8, 97u8, 109u8, 0u8];
    proof {
        assert(v@ =~= spec_magic());
    }
    v
}

/// The opcode space of the protocol.  The wire codes run in declaration
/// order, `UNSPEC` first; `__MAX` is one past the last defined code.
#[allow(non_camel_case_types)]
#[derive(Copy, Clone, Debug, PartialEq, Eq, Structural)]
pub enum Cmd {
    UNSPEC,
    SUBVOL,
    SNAPSHOT,
    MKFILE,
    MKDIR,
    MKNOD,
    MKFIFO,
    MKSOCK,
    SYMLINK,
    RENAME,
    LINK,
    UNLINK,
    RMDIR,
    SET_XATTR,
    REMOVE_XATTR,
    WRITE,
    CLONE,
    TRUNCATE,
    CHMOD,
    CHOWN,
    UTIMES,
    END,
    UPDATE_EXTENT,
    __MAX,
}

impl Cmd {
    /// The 16-bit code this opcode has on the wire.
    pub open spec fn spec_code(self) -> u16 {
        match self {
            Cmd::UNSPEC => 0,
            Cmd::SUBVOL => 1,
            Cmd::SNAPSHOT => 2,
            Cmd::MKFILE => 3,
            Cmd::MKDIR => 4,
            Cmd::MKNOD => 5,
            Cmd::MKFIFO => 6,
            Cmd::MKSOCK => 7,
            Cmd::SYMLINK => 8,
            Cmd::RENAME => 9,
            Cmd::LINK => 10,
            Cmd::UNLINK => 11,
            Cmd::RMDIR => 12,
            Cmd::SET_XATTR => 13,
            Cmd::REMOVE_XATTR => 14,
            Cmd::WRITE => 15,
            Cmd::CLONE => 16,
            Cmd::TRUNCATE => 17,
            Cmd::CHMOD => 18,
            Cmd::CHOWN => 19,
            Cmd::UTIMES => 20,
            Cmd::END => 21,
            Cmd::UPDATE_EXTENT => 22,
            Cmd::__MAX => 23,
        }
    }

    /// The 16-bit code this opcode has on the wire.
    pub fn code(self) -> (c: u16)
        ensures
            c == self.spec_code(),
    {
        match self {
            Cmd::UNSPEC => 0,
            Cmd::SUBVOL => 1,
            Cmd::SNAPSHOT => 2,
            Cmd::MKFILE => 3,
            Cmd::MKDIR => 4,
            Cmd::MKNOD => 5,
            Cmd::MKFIFO => 6,
            Cmd::MKSOCK => 7,
            Cmd::SYMLINK => 8,
            Cmd::RENAME => 9,
            Cmd::LINK => 10,
            Cmd::UNLINK => 11,
            Cmd::RMDIR => 12,
            Cmd::SET_XATTR => 13,
            Cmd::REMOVE_XATTR => 14,
            Cmd::WRITE => 15,
            Cmd::CLONE => 16,
            Cmd::TRUNCATE => 17,
            Cmd::CHMOD => 18,
            Cmd::CHOWN => 19,
            Cmd::UTIMES => 20,
            Cmd::END => 21,
            Cmd::UPDATE_EXTENT => 22,
            Cmd::__MAX => 23,
        }
    }

    /// The checked mapping from a wire code back to an opcode: `None` for any
    /// code outside the defined range, so no reinterpretation is ever blind.
    pub open spec fn spec_from_u16(c: u16) -> Option<Cmd> {
        if c == 0 { Some(Cmd::UNSPEC) }
        else if c == 1 { Some(Cmd::SUBVOL) }
        else if c == 2 { Some(Cmd::SNAPSHOT) }
        else if c == 3 { Some(Cmd::MKFILE) }
        else if c == 4 { Some(Cmd::MKDIR) }
        else if c == 5 { Some(Cmd::MKNOD) }
        else if c == 6 { Some(Cmd::MKFIFO) }
        else if c == 7 { Some(Cmd::MKSOCK) }
        else if c == 8 { Some(Cmd::SYMLINK) }
        else if c == 9 { Some(Cmd::RENAME) }
        else if c == 10 { Some(Cmd::LINK) }
        else if c == 11 { Some(Cmd::UNLINK) }
        else if c == 12 { Some(Cmd::RMDIR) }
        else if c == 13 { Some(Cmd::SET_XATTR) }
        else if c == 14 { Some(Cmd::REMOVE_XATTR) }
        else if c == 15 { Some(Cmd::WRITE) }
        else if c == 16 { Some(Cmd::CLONE) }
        else if c == 17 { Some(Cmd::TRUNCATE) }
        else if c == 18 { Some(Cmd::CHMOD) }
        else if c == 19 { Some(Cmd::CHOWN) }
        else if c == 20 { Some(Cmd::UTIMES) }
        else if c == 21 { Some(Cmd::END) }
        else if c == 22 { Some(Cmd::UPDATE_EXTENT) }
        else { None }
    }

    /// Exec mirror of [`Cmd::spec_from_u16`].
    pub fn from_u16(c: u16) -> (r: Option<Cmd>)
        ensures
            r == Cmd::spec_from_u16(c),
    {
        match c {
            0 => Some(Cmd::UNSPEC),
            1 => Some(Cmd::SUBVOL),
            2 => Some(Cmd::SNAPSHOT),
            3 => Some(Cmd::MKFILE),
            4 => Some(Cmd::MKDIR),
            5 => Some(Cmd::MKNOD),
            6 => Some(Cmd::MKFIFO),
            7 => Some(Cmd::MKSOCK),
            8 => Some(Cmd::SYMLINK),
            9 => Some(Cmd::RENAME),
            10 => Some(Cmd::LINK),
            11 => Some(Cmd::UNLINK),
            12 => Some(Cmd::RMDIR),
            13 => Some(Cmd::SET_XATTR),
            14 => Some(Cmd::REMOVE_XATTR),
            15 => Some(Cmd::WRITE),
            16 => Some(Cmd::CLONE),
            17 => Some(Cmd::TRUNCATE),
            18 => Some(Cmd::CHMOD),
            19 => Some(Cmd::CHOWN),
            20 => Some(Cmd::UTIMES),
            21 => Some(Cmd::END),
            22 => Some(Cmd::UPDATE_EXTENT),
            _ => None,
        }
    }
}

/// The attribute-key space of the protocol.  The wire codes run in
/// declaration order, `UNSPEC` first; `__MAX` is one past the last code.
#[allow(non_camel_case_types)]
#[derive(Copy, Clone, Debug, PartialEq, Eq, Structural)]
pub enum Attr {
    UNSPEC,
    UUID,
    CTRANSID,
    INO,
    SIZE,
    MODE,
    UID,
    GID,
    RDEV,
    CTIME,
    MTIME,
    ATIME,
    OTIME,
    XATTR_NAME,
    XATTR_DATA,
    PATH,
    PATH_TO,
    PATH_LINK,
    FILE_OFFSET,
    DATA,
    CLONE_UUID,
    CLONE_CTRANSID,
    CLONE_PATH,
    CLONE_OFFSET,
    CLONE_LEN,
    __MAX,
}

impl Attr {
    /// The 16-bit key this attribute has on the wire.
    pub open spec fn spec_code(self) -> u16 {
        match self {
            Attr::UNSPEC => 0,
            Attr::UUID => 1,
            Attr::CTRANSID => 2,
            Attr::INO => 3,
            Attr::SIZE => 4,
            Attr::MODE => 5,
            Attr::UID => 6,
            Attr::GID => 7,
            Attr::RDEV => 8,
            Attr::CTIME => 9,
            Attr::MTIME => 10,
            Attr::ATIME => 11,
            Attr::OTIME => 12,
            Attr::XATTR_NAME => 13,
            Attr::XATTR_DATA => 14,
            Attr::PATH => 15,
            Attr::PATH_TO => 16,
            Attr::PATH_LINK => 17,
            Attr::FILE_OFFSET => 18,
            Attr::DATA => 19,
            Attr::CLONE_UUID => 20,
            Attr::CLONE_CTRANSID => 21,
            Attr::CLONE_PATH => 22,
            Attr::CLONE_OFFSET => 23,
            Attr::CLONE_LEN => 24,
            Attr::__MAX => 25,
        }
    }

    /// The 16-bit key this attribute has on the wire.
    pub fn code(self) -> (c: u16)
        ensures
            c == self.spec_code(),
    {
        match self {
            Attr::UNSPEC => 0,
            Attr::UUID => 1,
            Attr::CTRANSID => 2,
            Attr::INO => 3,
            Attr::SIZE => 4,
            Attr::MODE => 5,
            Attr::UID => 6,
            Attr::GID => 7,
            Attr::RDEV => 8,
            Attr::CTIME => 9,
            Attr::MTIME => 10,
            Attr::ATIME => 11,
            Attr::OTIME => 12,
            Attr::XATTR_NAME => 13,
            Attr::XATTR_DATA => 14,
            Attr::PATH => 15,
            Attr::PATH_TO => 16,
            Attr::PATH_LINK => 17,
            Attr::FILE_OFFSET => 18,
            Attr::DATA => 19,
            Attr::CLONE_UUID => 20,
            Attr::CLONE_CTRANSID => 21,
            Attr::CLONE_PATH => 22,
            Attr::CLONE_OFFSET => 23,
            Attr::CLONE_LEN => 24,
            Attr::__MAX => 25,
        }
    }
}

} // verus!
