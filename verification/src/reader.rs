//! The stream reader: header validation, command framing, and the dispatch
//! of raw commands into typed operation records.

use vstd::prelude::*;
use vstd::bytes::{spec_u16_from_le_bytes, spec_u32_from_le_bytes};
use vstd::bytes::{u16_from_le_bytes, u32_from_le_bytes};
use vstd::slice::{slice_subrange, slice_to_vec};
use vstd::string::StringExecFns;
use crate::Error;
use crate::commands;
use crate::definitions::{Attr, Cmd, MAGIC_LEN, magic, spec_magic};
use crate::tlv::{TLVData, TLVEntry, TLVEntryModel, Timespec, entries_view, parse_entries};
use crate::tlv::{sget_raw, sget_string, sget_timespec, sget_u64, sget_uuid};

verus! {

/// One decoded command: a typed record for each known opcode, or `Unknown`
/// for an opcode outside the known set.
#[derive(Clone, Debug)]
pub enum Command {
    Unknown(commands::Unknown),
    Subvol(commands::Subvol),
    Snapshot(commands::Snapshot),
    MkFile(commands::MkFile),
    MkDir(commands::MkDir),
    MkNod(commands::MkNod),
    MkFifo(commands::MkFifo),
    MkSock(commands::MkSock),
    SymLink(commands::SymLink),
    Rename(commands::Rename),
    Link(commands::Link),
    UnLink(commands::UnLink),
    RmDir(commands::RmDir),
    Write(commands::Write),
    Clone(commands::Clone),
    SetXattr(commands::SetXattr),
    RemoveXattr(commands::RemoveXattr),
    Truncate(commands::Truncate),
    Chmod(commands::Chmod),
    Chown(commands::Chown),
    Utimes(commands::Utimes),
    UpdateExtent(commands::UpdateExtent),
    End(commands::End),
}

/// The mathematical shadow of a [`Command`]: every field as a plain value.
pub ghost enum CommandV {
    Unknown { header: CommandHeader, entries: Seq<TLVEntryModel> },
    Subvol { path: Seq<char>, uuid: Seq<u8>, ctransid: u64 },
    Snapshot {
        path: Seq<char>,
        uuid: Seq<u8>,
        ctransid: u64,
        clone_uuid: Seq<u8>,
        clone_ctransid: u64,
    },
    MkFile { path: Seq<char> },
    MkDir { path: Seq<char> },
    MkNod { path: Seq<char>, mode: u64, rdev: u64 },
    MkFifo { path: Seq<char> },
    MkSock { path: Seq<char> },
    SymLink { path: Seq<char>, path_link: Seq<char> },
    Rename { path: Seq<char>, path_to: Seq<char> },
    Link { path: Seq<char>, path_link: Seq<char> },
    UnLink { path: Seq<char> },
    RmDir { path: Seq<char> },
    Write { path: Seq<char>, file_offset: u64, data: Seq<u8> },
    Clone {
        path: Seq<char>,
        file_offset: u64,
        clone_len: u64,
        clone_uuid: Seq<u8>,
        clone_ctransid: u64,
        clone_path: Seq<char>,
        clone_offset: u64,
    },
    SetXattr { path: Seq<char>, xattr_name: Seq<char>, xattr_data: Seq<u8> },
    RemoveXattr { path: Seq<char>, xattr_name: Seq<char> },
    Truncate { path: Seq<char>, size: u64 },
    Chmod { path: Seq<char>, mode: u64 },
    Chown { path: Seq<char>, uid: u64, gid: u64 },
    Utimes { path: Seq<char>, atime: Timespec, mtime: Timespec, ctime: Timespec },
    UpdateExtent { path: Seq<char>, file_offset: u64, size: u64 },
    End,
}

impl View for Command {
    type V = CommandV;

    open spec fn view(&self) -> CommandV {
        match self {
            Command::Unknown(u) => CommandV::Unknown { header: u.header, entries: u.data@ },
            Command::Subvol(c) => CommandV::Subvol {
                path: c.path@,
                uuid: c.uuid@,
                ctransid: c.ctransid,
            },
            Command::Snapshot(c) => CommandV::Snapshot {
                path: c.path@,
                uuid: c.uuid@,
                ctransid: c.ctransid,
                clone_uuid: c.clone_uuid@,
                clone_ctransid: c.clone_ctransid,
            },
            Command::MkFile(c) => CommandV::MkFile { path: c.path@ },
            Command::MkDir(c) => CommandV::MkDir { path: c.path@ },
            Command::MkNod(c) => CommandV::MkNod { path: c.path@, mode: c.mode, rdev: c.rdev },
            Command::MkFifo(c) => CommandV::MkFifo { path: c.path@ },
            Command::MkSock(c) => CommandV::MkSock { path: c.path@ },
            Command::SymLink(c) => CommandV::SymLink {
                path: c.path@,
                path_link: c.path_link@,
            },
            Command::Rename(c) => CommandV::Rename { path: c.path@, path_to: c.path_to@ },
            Command::Link(c) => CommandV::Link { path: c.path@, path_link: c.path_link@ },
            Command::UnLink(c) => CommandV::UnLink { path: c.path@ },
            Command::RmDir(c) => CommandV::RmDir { path: c.path@ },
            Command::Write(c) => CommandV::Write {
                path: c.path@,
                file_offset: c.file_offset,
                data: c.data@,
            },
            Command::Clone(c) => CommandV::Clone {
                path: c.path@,
                file_offset: c.file_offset,
                clone_len: c.clone_len,
                clone_uuid: c.clone_uuid@,
                clone_ctransid: c.clone_ctransid,
                clone_path: c.clone_path@,
                clone_offset: c.clone_offset,
            },
            Command::SetXattr(c) => CommandV::SetXattr {
                path: c.path@,
                xattr_name: c.xattr_name@,
                xattr_data: c.xattr_data@,
            },
            Command::RemoveXattr(c) => CommandV::RemoveXattr {
                path: c.path@,
                xattr_name: c.xattr_name@,
            },
            Command::Truncate(c) => CommandV::Truncate { path: c.path@, size: c.size },
            Command::Chmod(c) => CommandV::Chmod { path: c.path@, mode: c.mode },
            Command::Chown(c) => CommandV::Chown { path: c.path@, uid: c.uid, gid: c.gid },
            Command::Utimes(c) => CommandV::Utimes {
                path: c.path@,
                atime: c.atime,
                mtime: c.mtime,
                ctime: c.ctime,
            },
            Command::UpdateExtent(c) => CommandV::UpdateExtent {
                path: c.path@,
                file_offset: c.file_offset,
                size: c.size,
            },
            Command::End(_) => CommandV::End,
        }
    }
}

/// Resolution of a subvolume-create command.
pub open spec fn spec_parse_subvol(es: Seq<TLVEntryModel>) -> Result<CommandV, Error> {
    match (
        sget_string(es, Attr::PATH.spec_code()),
        sget_uuid(es, Attr::UUID.spec_code()),
        sget_u64(es, Attr::CTRANSID.spec_code()),
    ) {
        (Err(e), _, _) => Err(e),
        (Ok(_), Err(e), _) => Err(e),
        (Ok(_), Ok(_), Err(e)) => Err(e),
        (Ok(path), Ok(uuid), Ok(ctransid)) => Ok(
            CommandV::Subvol { path: path, uuid: uuid, ctransid: ctransid },
        ),
    }
}

/// Resolution of a snapshot-create command.
pub open spec fn spec_parse_snapshot(es: Seq<TLVEntryModel>) -> Result<CommandV, Error> {
    match (
        sget_string(es, Attr::PATH.spec_code()),
        sget_uuid(es, Attr::UUID.spec_code()),
        sget_u64(es, Attr::CTRANSID.spec_code()),
        sget_u64(es, Attr::CLONE_CTRANSID.spec_code()),
        sget_uuid(es, Attr::CLONE_UUID.spec_code()),
    ) {
        (Err(e), _, _, _, _) => Err(e),
        (Ok(_), Err(e), _, _, _) => Err(e),
        (Ok(_), Ok(_), Err(e), _, _) => Err(e),
        (Ok(_), Ok(_), Ok(_), Err(e), _) => Err(e),
        (Ok(_), Ok(_), Ok(_), Ok(_), Err(e)) => Err(e),
        (Ok(path), Ok(uuid), Ok(ctransid), Ok(clone_ctransid), Ok(clone_uuid)) => Ok(
            CommandV::Snapshot {
                path: path,
                uuid: uuid,
                ctransid: ctransid,
                clone_uuid: clone_uuid,
                clone_ctransid: clone_ctransid,
            },
        ),
    }
}

/// Resolution of a command whose only mandatory attribute is the path:
/// make-file, make-directory, make-fifo, make-socket, unlink, and
/// remove-directory all share this shape.
pub open spec fn spec_parse_path_only(
    es: Seq<TLVEntryModel>,
    make: spec_fn(Seq<char>) -> CommandV,
) -> Result<CommandV, Error> {
    match sget_string(es, Attr::PATH.spec_code()) {
        Err(e) => Err(e),
        Ok(path) => Ok(make(path)),
    }
}

/// Resolution of a make-device-node command.
pub open spec fn spec_parse_mknod(es: Seq<TLVEntryModel>) -> Result<CommandV, Error> {
    match (
        sget_string(es, Attr::PATH.spec_code()),
        sget_u64(es, Attr::MODE.spec_code()),
        sget_u64(es, Attr::RDEV.spec_code()),
    ) {
        (Err(e), _, _) => Err(e),
        (Ok(_), Err(e), _) => Err(e),
        (Ok(_), Ok(_), Err(e)) => Err(e),
        (Ok(path), Ok(mode), Ok(rdev)) => Ok(CommandV::MkNod { path: path, mode: mode, rdev: rdev }),
    }
}

/// Resolution of a two-path command: symlink, rename, and hard-link share
/// this shape, differing in the key of the second path.
pub open spec fn spec_parse_two_paths(
    es: Seq<TLVEntryModel>,
    second_key: u16,
    make: spec_fn(Seq<char>, Seq<char>) -> CommandV,
) -> Result<CommandV, Error> {
    match (sget_string(es, Attr::PATH.spec_code()), sget_string(es, second_key)) {
        (Err(e), _) => Err(e),
        (Ok(_), Err(e)) => Err(e),
        (Ok(path), Ok(second)) => Ok(make(path, second)),
    }
}

/// Resolution of a write command.
pub open spec fn spec_parse_write(es: Seq<TLVEntryModel>) -> Result<CommandV, Error> {
    match (
        sget_string(es, Attr::PATH.spec_code()),
        sget_u64(es, Attr::FILE_OFFSET.spec_code()),
        sget_raw(es, Attr::DATA.spec_code()),
    ) {
        (Err(e), _, _) => Err(e),
        (Ok(_), Err(e), _) => Err(e),
        (Ok(_), Ok(_), Err(e)) => Err(e),
        (Ok(path), Ok(file_offset), Ok(data)) => Ok(
            CommandV::Write { path: path, file_offset: file_offset, data: data },
        ),
    }
}

/// Resolution of a clone-range command.
pub open spec fn spec_parse_clone(es: Seq<TLVEntryModel>) -> Result<CommandV, Error> {
    match (
        sget_string(es, Attr::PATH.spec_code()),
        sget_u64(es, Attr::FILE_OFFSET.spec_code()),
        sget_u64(es, Attr::CLONE_LEN.spec_code()),
        sget_uuid(es, Attr::CLONE_UUID.spec_code()),
        sget_u64(es, Attr::CLONE_CTRANSID.spec_code()),
        sget_string(es, Attr::CLONE_PATH.spec_code()),
        sget_u64(es, Attr::CLONE_OFFSET.spec_code()),
    ) {
        (Err(e), _, _, _, _, _, _) => Err(e),
        (Ok(_), Err(e), _, _, _, _, _) => Err(e),
        (Ok(_), Ok(_), Err(e), _, _, _, _) => Err(e),
        (Ok(_), Ok(_), Ok(_), Err(e), _, _, _) => Err(e),
        (Ok(_), Ok(_), Ok(_), Ok(_), Err(e), _, _) => Err(e),
        (Ok(_), Ok(_), Ok(_), Ok(_), Ok(_), Err(e), _) => Err(e),
        (Ok(_), Ok(_), Ok(_), Ok(_), Ok(_), Ok(_), Err(e)) => Err(e),
        (
            Ok(path),
            Ok(file_offset),
            Ok(clone_len),
            Ok(clone_uuid),
            Ok(clone_ctransid),
            Ok(clone_path),
            Ok(clone_offset),
        ) => Ok(
            CommandV::Clone {
                path: path,
                file_offset: file_offset,
                clone_len: clone_len,
                clone_uuid: clone_uuid,
                clone_ctransid: clone_ctransid,
                clone_path: clone_path,
                clone_offset: clone_offset,
            },
        ),
    }
}

/// Resolution of a set-extended-attribute command.
pub open spec fn spec_parse_set_xattr(es: Seq<TLVEntryModel>) -> Result<CommandV, Error> {
    match (
        sget_string(es, Attr::PATH.spec_code()),
        sget_string(es, Attr::XATTR_NAME.spec_code()),
        sget_raw(es, Attr::XATTR_DATA.spec_code()),
    ) {
        (Err(e), _, _) => Err(e),
        (Ok(_), Err(e), _) => Err(e),
        (Ok(_), Ok(_), Err(e)) => Err(e),
        (Ok(path), Ok(xattr_name), Ok(xattr_data)) => Ok(
            CommandV::SetXattr { path: path, xattr_name: xattr_name, xattr_data: xattr_data },
        ),
    }
}

/// Resolution of a remove-extended-attribute command.
pub open spec fn spec_parse_remove_xattr(es: Seq<TLVEntryModel>) -> Result<CommandV, Error> {
    match (
        sget_string(es, Attr::PATH.spec_code()),
        sget_string(es, Attr::XATTR_NAME.spec_code()),
    ) {
        (Err(e), _) => Err(e),
        (Ok(_), Err(e)) => Err(e),
        (Ok(path), Ok(xattr_name)) => Ok(
            CommandV::RemoveXattr { path: path, xattr_name: xattr_name },
        ),
    }
}

/// Resolution of a command carrying a path and one 64-bit scalar: truncate
/// and chmod share this shape, differing in the scalar's key.
pub open spec fn spec_parse_path_scalar(
    es: Seq<TLVEntryModel>,
    scalar_key: u16,
    make: spec_fn(Seq<char>, u64) -> CommandV,
) -> Result<CommandV, Error> {
    match (sget_string(es, Attr::PATH.spec_code()), sget_u64(es, scalar_key)) {
        (Err(e), _) => Err(e),
        (Ok(_), Err(e)) => Err(e),
        (Ok(path), Ok(n)) => Ok(make(path, n)),
    }
}

/// Resolution of an ownership-change command.
pub open spec fn spec_parse_chown(es: Seq<TLVEntryModel>) -> Result<CommandV, Error> {
    match (
        sget_string(es, Attr::PATH.spec_code()),
        sget_u64(es, Attr::UID.spec_code()),
        sget_u64(es, Attr::GID.spec_code()),
    ) {
        (Err(e), _, _) => Err(e),
        (Ok(_), Err(e), _) => Err(e),
        (Ok(_), Ok(_), Err(e)) => Err(e),
        (Ok(path), Ok(uid), Ok(gid)) => Ok(CommandV::Chown { path: path, uid: uid, gid: gid }),
    }
}

/// Resolution of a set-times command.
pub open spec fn spec_parse_utimes(es: Seq<TLVEntryModel>) -> Result<CommandV, Error> {
    match (
        sget_string(es, Attr::PATH.spec_code()),
        sget_timespec(es, Attr::ATIME.spec_code()),
        sget_timespec(es, Attr::MTIME.spec_code()),
        sget_timespec(es, Attr::CTIME.spec_code()),
    ) {
        (Err(e), _, _, _) => Err(e),
        (Ok(_), Err(e), _, _) => Err(e),
        (Ok(_), Ok(_), Err(e), _) => Err(e),
        (Ok(_), Ok(_), Ok(_), Err(e)) => Err(e),
        (Ok(path), Ok(atime), Ok(mtime), Ok(ctime)) => Ok(
            CommandV::Utimes { path: path, atime: atime, mtime: mtime, ctime: ctime },
        ),
    }
}

/// Resolution of an update-extent command.
pub open spec fn spec_parse_update_extent(es: Seq<TLVEntryModel>) -> Result<CommandV, Error> {
    match (
        sget_string(es, Attr::PATH.spec_code()),
        sget_u64(es, Attr::FILE_OFFSET.spec_code()),
        sget_u64(es, Attr::SIZE.spec_code()),
    ) {
        (Err(e), _, _) => Err(e),
        (Ok(_), Err(e), _) => Err(e),
        (Ok(_), Ok(_), Err(e)) => Err(e),
        (Ok(path), Ok(file_offset), Ok(size)) => Ok(
            CommandV::UpdateExtent { path: path, file_offset: file_offset, size: size },
        ),
    }
}

/// The dispatcher: one raw command resolves to exactly one typed record.
/// A known opcode demands its mandatory attributes in a fixed order, and the
/// first lookup or decode failure is the whole result; an opcode outside the
/// known set resolves to `Unknown` with the raw command kept untouched.
pub open spec fn spec_parse_command(u: RawCommandModel) -> Result<CommandV, Error> {
    let es = u.entries;
    match Cmd::spec_from_u16(u.header.cmd) {
        Some(Cmd::SUBVOL) => spec_parse_subvol(es),
        Some(Cmd::SNAPSHOT) => spec_parse_snapshot(es),
        Some(Cmd::MKFILE) => spec_parse_path_only(es, |path| CommandV::MkFile { path: path }),
        Some(Cmd::MKDIR) => spec_parse_path_only(es, |path| CommandV::MkDir { path: path }),
        Some(Cmd::MKNOD) => spec_parse_mknod(es),
        Some(Cmd::MKFIFO) => spec_parse_path_only(es, |path| CommandV::MkFifo { path: path }),
        Some(Cmd::MKSOCK) => spec_parse_path_only(es, |path| CommandV::MkSock { path: path }),
        Some(Cmd::SYMLINK) => spec_parse_two_paths(
            es,
            Attr::PATH_LINK.spec_code(),
            |path, path_link| CommandV::SymLink { path: path, path_link: path_link },
        ),
        Some(Cmd::RENAME) => spec_parse_two_paths(
            es,
            Attr::PATH_TO.spec_code(),
            |path, path_to| CommandV::Rename { path: path, path_to: path_to },
        ),
        Some(Cmd::LINK) => spec_parse_two_paths(
            es,
            Attr::PATH_LINK.spec_code(),
            |path, path_link| CommandV::Link { path: path, path_link: path_link },
        ),
        Some(Cmd::UNLINK) => spec_parse_path_only(es, |path| CommandV::UnLink { path: path }),
        Some(Cmd::RMDIR) => spec_parse_path_only(es, |path| CommandV::RmDir { path: path }),
        Some(Cmd::WRITE) => spec_parse_write(es),
        Some(Cmd::CLONE) => spec_parse_clone(es),
        Some(Cmd::SET_XATTR) => spec_parse_set_xattr(es),
        Some(Cmd::REMOVE_XATTR) => spec_parse_remove_xattr(es),
        Some(Cmd::TRUNCATE) => spec_parse_path_scalar(
            es,
            Attr::SIZE.spec_code(),
            |path, size| CommandV::Truncate { path: path, size: size },
        ),
        Some(Cmd::CHMOD) => spec_parse_path_scalar(
            es,
            Attr::MODE.spec_code(),
            |path, mode| CommandV::Chmod { path: path, mode: mode },
        ),
        Some(Cmd::CHOWN) => spec_parse_chown(es),
        Some(Cmd::UTIMES) => spec_parse_utimes(es),
        Some(Cmd::UPDATE_EXTENT) => spec_parse_update_extent(es),
        Some(Cmd::END) => Ok(CommandV::End),
        Some(Cmd::UNSPEC) => Ok(CommandV::Unknown { header: u.header, entries: u.entries }),
        Some(Cmd::__MAX) => Ok(CommandV::Unknown { header: u.header, entries: u.entries }),
        None => Ok(CommandV::Unknown { header: u.header, entries: u.entries }),
    }
}

/// The fixed-size frame in front of every command body.
#[derive(Clone, Copy, Debug, PartialEq, Eq, Structural)]
pub struct CommandHeader {
    /// Declared length of the TLV body that follows, in bytes.
    pub len: u32,
    /// Opcode of the command.
    pub cmd: u16,
    /// Checksum as carried on the wire; not verified against the contents.
    pub crc32: u32,
}

/// The mathematical shadow of a raw command: its header and decoded entries.
pub ghost struct RawCommandModel {
    pub header: CommandHeader,
    pub entries: Seq<TLVEntryModel>,
}

impl View for commands::Unknown {
    type V = RawCommandModel;

    open spec fn view(&self) -> RawCommandModel {
        RawCommandModel { header: self.header, entries: self.data@ }
    }
}

/// Bytes per command header on the wire: length, opcode, checksum.
pub const HEADER_LEN: usize = 10;

/// The header whose ten bytes begin at `p` in `s`.
pub open spec fn spec_header_at(s: Seq<u8>, p: int) -> CommandHeader {
    CommandHeader {
        len: spec_u32_from_le_bytes(s.subrange(p, p + 4)),
        cmd: spec_u16_from_le_bytes(s.subrange(p + 4, p + 6)),
        crc32: spec_u32_from_le_bytes(s.subrange(p + 6, p + 10)),
    }
}

/// The outcome of validating the stream header: the version on success, or
/// the first error in wire order (truncation, then magic, then version).
pub open spec fn header_check(s: Seq<u8>) -> Result<u32, Error> {
    if s.len() < 13 {
        Err(Error::TruncatedStream)
    } else if s.subrange(0, 13) != spec_magic() {
        Err(Error::FormatError)
    } else if s.len() < 17 {
        Err(Error::TruncatedStream)
    } else if spec_u32_from_le_bytes(s.subrange(13, 17)) != 1 {
        Err(Error::UnsupportedVersion)
    } else {
        Ok(1u32)
    }
}

/// The outcome of pulling one raw command at position `p` of stream `s`:
/// clean end of stream, a framed raw command, or the first error in wire
/// order.
pub open spec fn spec_next_raw(s: Seq<u8>, p: int) -> Result<Option<RawCommandModel>, Error> {
    if p == s.len() {
        Ok(None)
    } else if s.len() - p < HEADER_LEN {
        Err(Error::TruncatedStream)
    } else {
        let h = spec_header_at(s, p);
        if p + HEADER_LEN + h.len > s.len() {
            Err(Error::TruncatedStream)
        } else {
            match parse_entries(s.subrange(p + HEADER_LEN, p + HEADER_LEN + h.len)) {
                Some(es) => Ok(Some(RawCommandModel { header: h, entries: es })),
                None => Err(Error::FramingError),
            }
        }
    }
}

/// A forward-only cursor over one stream of bytes, positioned after the
/// validated stream header.
#[derive(Debug)]
pub struct BtrfsReader {
    data: Vec<u8>,
    pos: usize,
    version: u32,
}

impl BtrfsReader {
    /// The whole byte stream this reader was built over.
    pub closed spec fn stream(&self) -> Seq<u8> {
        self.data@
    }

    /// The reader's current position in the stream.
    pub closed spec fn offset(&self) -> int {
        self.pos as int
    }

    /// The validated stream version.
    pub closed spec fn spec_version(&self) -> u32 {
        self.version
    }

    /// Well-formedness: the position is inside the stream and the version
    /// was validated.
    pub open spec fn wf(&self) -> bool {
        0 <= self.offset() <= self.stream().len() && self.spec_version() == 1
    }

    /// How many bytes remain in front of the cursor.
    pub open spec fn avail(&self) -> int {
        self.stream().len() - self.offset()
    }

    /// Validate the stream header over an owned byte stream: the magic
    /// signature byte for byte, then the version.  On success the reader
    /// stands immediately after the header; no command is read here.
    pub fn new(data: Vec<u8>) -> (r: Result<BtrfsReader, Error>)
        ensures
            match r {
                Ok(rd) => header_check(data@) == Ok::<u32, Error>(1u32) && rd.wf() && rd.stream()
                    == data@ && rd.offset() == MAGIC_LEN + 4,
                Err(e) => header_check(data@) == Err::<u32, Error>(e),
            },
    {
        if data.len() < MAGIC_LEN {
            return Err(Error::TruncatedStream);
        }
        let m = magic();
        let mut i: usize = 0;
        while i < MAGIC_LEN
            invariant
                0 <= i <= 13,
                data@.len() >= 13,
                m@ == spec_magic(),
                forall|j: int| 0 <= j < i ==> data@[j] == spec_magic()[j],
            decreases 13 - i,
        {
            if data[i] != m[i] {
                proof {
                    let sub = data@.subrange(0, 13);
                    assert(sub[i as int] == data@[i as int]);
                    assert(sub != spec_magic()) by {
                        if sub == spec_magic() {
                            assert(sub[i as int] == spec_magic()[i as int]);
                        }
                    }
                }
                return Err(Error::FormatError);
            }
            i += 1;
        }
        proof {
            assert(data@.subrange(0, 13) =~= spec_magic());
        }
        if data.len() < MAGIC_LEN + 4 {
            return Err(Error::TruncatedStream);
        }
        let version = u32_from_le_bytes(slice_subrange(data.as_slice(), MAGIC_LEN, MAGIC_LEN + 4));
        if version != 1 {
            return Err(Error::UnsupportedVersion);
        }
        Ok(BtrfsReader { data, pos: MAGIC_LEN + 4, version })
    }

    /// The validated stream version.
    pub fn version(&self) -> (v: u32)
        ensures
            v == self.spec_version(),
    {
        self.version
    }

    /// Pull one command header.  Zero bytes available at this boundary is
    /// clean end of stream, not an error; one to nine bytes is a truncated
    /// stream.
    pub fn read_command_header(&mut self) -> (r: Result<Option<CommandHeader>, Error>)
        requires
            old(self).wf(),
        ensures
            final(self).wf(),
            final(self).stream() == old(self).stream(),
            old(self).avail() == 0 ==> r == Ok::<Option<CommandHeader>, Error>(None)
                && final(self).offset() == old(self).offset(),
            0 < old(self).avail() < HEADER_LEN ==> r == Err::<Option<CommandHeader>, Error>(
                Error::TruncatedStream,
            ) && final(self).offset() == old(self).offset(),
            old(self).avail() >= HEADER_LEN ==> r == Ok::<Option<CommandHeader>, Error>(
                Some(spec_header_at(old(self).stream(), old(self).offset())),
            ) && final(self).offset() == old(self).offset() + HEADER_LEN,
    {
        let avail = self.data.len() - self.pos;
        if avail == 0 {
            return Ok(None);
        }
        if avail < HEADER_LEN {
            return Err(Error::TruncatedStream);
        }
        let len = u32_from_le_bytes(slice_subrange(self.data.as_slice(), self.pos, self.pos + 4));
        let cmd = u16_from_le_bytes(
            slice_subrange(self.data.as_slice(), self.pos + 4, self.pos + 6),
        );
        let crc32 = u32_from_le_bytes(
            slice_subrange(self.data.as_slice(), self.pos + 6, self.pos + 10),
        );
        self.pos = self.pos + HEADER_LEN;
        Ok(Some(CommandHeader { len, cmd, crc32 }))
    }

    /// Read exactly `len_to_read` bytes in front of the cursor as a TLV body.
    /// The region must lie inside the stream, and within it the entries'
    /// framing must sum to exactly the declared length; otherwise the body is
    /// rejected and the reader does not move.
    pub fn read_tlvs(&mut self, len_to_read: u32) -> (r: Result<TLVData, Error>)
        requires
            old(self).wf(),
        ensures
            final(self).wf(),
            final(self).stream() == old(self).stream(),
            old(self).offset() + len_to_read > old(self).stream().len() ==> r == Err::<
                TLVData,
                Error,
            >(Error::TruncatedStream) && final(self).offset() == old(self).offset(),
            old(self).offset() + len_to_read <= old(self).stream().len() ==> ({
                let body = old(self).stream().subrange(
                    old(self).offset(),
                    old(self).offset() + len_to_read,
                );
                match parse_entries(body) {
                    Some(es) => (r matches Ok(t) && t@ == es) && final(self).offset() == old(
                        self,
                    ).offset() + len_to_read,
                    None => r == Err::<TLVData, Error>(Error::FramingError) && final(self).offset()
                        == old(self).offset(),
                }
            }),
    {
        let len_usize = len_to_read as usize;
        if len_usize > self.data.len() - self.pos {
            return Err(Error::TruncatedStream);
        }
        let start: usize = self.pos;
        let end: usize = start + len_usize;
        let ghost body = self.data@.subrange(start as int, end as int);
        let mut entries: Vec<TLVEntry> = Vec::new();
        let mut i: usize = start;
        proof {
            assert(entries_view(entries@) =~= Seq::<TLVEntryModel>::empty());
            match parse_entries(body) {
                Some(rest) => {
                    assert(entries_view(entries@) + rest =~= rest);
                },
                None => {},
            }
        }
        while i < end
            invariant
                self.wf(),
                start == self.pos,
                start as int <= i as int <= end as int,
                end as int == start as int + len_to_read as int,
                end as int <= self.data@.len(),
                body == self.data@.subrange(start as int, end as int),
                ({
                    let suffix = self.data@.subrange(i as int, end as int);
                    match parse_entries(suffix) {
                        Some(rest) => parse_entries(body) == Some(entries_view(entries@) + rest),
                        None => parse_entries(body) is None,
                    }
                }),
            decreases end - i,
        {
            let ghost suffix = self.data@.subrange(i as int, end as int);
            if end - i < 4 {
                // a record's framing overhead alone exceeds the remaining budget
                return Err(Error::FramingError);
            }
            let key = u16_from_le_bytes(slice_subrange(self.data.as_slice(), i, i + 2));
            let vlen = u16_from_le_bytes(slice_subrange(self.data.as_slice(), i + 2, i + 4));
            proof {
                assert(suffix.subrange(0, 2) =~= self.data@.subrange(i as int, i as int + 2));
                assert(suffix.subrange(2, 4) =~= self.data@.subrange(i as int + 2, i as int + 4));
            }
            let vlen_usize = vlen as usize;
            if vlen_usize > end - i - 4 {
                // the declared value length would cross the command boundary
                return Err(Error::FramingError);
            }
            let value: Vec<u8> = slice_to_vec(
                slice_subrange(self.data.as_slice(), i + 4, i + 4 + vlen_usize),
            );
            let ghost entry_model = TLVEntryModel {
                key: key,
                value: self.data@.subrange(i as int + 4, i as int + 4 + vlen as int),
            };
            let ghost prev = entries@;
            entries.push(TLVEntry { key, value });
            proof {
                let next = self.data@.subrange(i as int + 4 + vlen as int, end as int);
                assert(suffix.subrange(4, 4 + vlen as int) =~= self.data@.subrange(
                    i as int + 4,
                    i as int + 4 + vlen as int,
                ));
                assert(suffix.subrange(4 + vlen as int, suffix.len() as int) =~= next);
                assert(parse_entries(suffix) == (match parse_entries(next) {
                    Some(rest) => Some(seq![entry_model] + rest),
                    None => None::<Seq<TLVEntryModel>>,
                }));
                assert(entries_view(entries@) =~= entries_view(prev) + seq![entry_model]);
                match parse_entries(next) {
                    Some(rest2) => {
                        assert(entries_view(prev) + (seq![entry_model] + rest2) =~= entries_view(
                            entries@,
                        ) + rest2);
                    },
                    None => {},
                }
            }
            i = i + 4 + vlen_usize;
        }
        proof {
            let empty_suffix = self.data@.subrange(end as int, end as int);
            assert(empty_suffix =~= Seq::<u8>::empty());
            assert(parse_entries(empty_suffix) == Some(Seq::<TLVEntryModel>::empty()));
            match parse_entries(body) {
                Some(es) => {
                    assert(entries_view(entries@) + Seq::<TLVEntryModel>::empty() =~= entries_view(
                        entries@,
                    ));
                },
                None => {},
            }
        }
        self.pos = end;
        Ok(TLVData { entries })
    }

    /// Resolve one raw command into a typed record, exactly as
    /// [`spec_parse_command`] says: all mandatory attributes of a known
    /// opcode, or the first failure unchanged, or `Unknown` untouched.
    pub fn parse_command(&self, cmd: commands::Unknown) -> (r: Result<Command, Error>)
        ensures
            match r {
                Ok(c) => spec_parse_command(cmd@) == Ok::<CommandV, Error>(c@),
                Err(e) => spec_parse_command(cmd@) == Err::<CommandV, Error>(e),
            },
    {
        let t = &cmd.data;
        match Cmd::from_u16(cmd.header.cmd) {
            Some(Cmd::SUBVOL) => {
                let path = match t.path() {
                    Ok(x) => x,
                    Err(e) => return Err(e),
                };
                let uuid = match t.uuid() {
                    Ok(x) => x,
                    Err(e) => return Err(e),
                };
                let ctransid = match t.ctransid() {
                    Ok(x) => x,
                    Err(e) => return Err(e),
                };
                Ok(Command::Subvol(commands::Subvol { path, uuid, ctransid }))
            },
            Some(Cmd::SNAPSHOT) => {
                let path = match t.path() {
                    Ok(x) => x,
                    Err(e) => return Err(e),
                };
                let uuid = match t.uuid() {
                    Ok(x) => x,
                    Err(e) => return Err(e),
                };
                let ctransid = match t.ctransid() {
                    Ok(x) => x,
                    Err(e) => return Err(e),
                };
                let clone_ctransid = match t.clone_ctransid() {
                    Ok(x) => x,
                    Err(e) => return Err(e),
                };
                let clone_uuid = match t.clone_uuid() {
                    Ok(x) => x,
                    Err(e) => return Err(e),
                };
                Ok(
                    Command::Snapshot(
                        commands::Snapshot { path, uuid, ctransid, clone_uuid, clone_ctransid },
                    ),
                )
            },
            Some(Cmd::MKFILE) => {
                let path = match t.path() {
                    Ok(x) => x,
                    Err(e) => return Err(e),
                };
                Ok(Command::MkFile(commands::MkFile { path }))
            },
            Some(Cmd::MKDIR) => {
                let path = match t.path() {
                    Ok(x) => x,
                    Err(e) => return Err(e),
                };
                Ok(Command::MkDir(commands::MkDir { path }))
            },
            Some(Cmd::MKNOD) => {
                let path = match t.path() {
                    Ok(x) => x,
                    Err(e) => return Err(e),
                };
                let mode = match t.mode() {
                    Ok(x) => x,
                    Err(e) => return Err(e),
                };
                let rdev = match t.rdev() {
                    Ok(x) => x,
                    Err(e) => return Err(e),
                };
                Ok(Command::MkNod(commands::MkNod { path, mode, rdev }))
            },
            Some(Cmd::MKFIFO) => {
                let path = match t.path() {
                    Ok(x) => x,
                    Err(e) => return Err(e),
                };
                Ok(Command::MkFifo(commands::MkFifo { path }))
            },
            Some(Cmd::MKSOCK) => {
                let path = match t.path() {
                    Ok(x) => x,
                    Err(e) => return Err(e),
                };
                Ok(Command::MkSock(commands::MkSock { path }))
            },
            Some(Cmd::SYMLINK) => {
                let path = match t.path() {
                    Ok(x) => x,
                    Err(e) => return Err(e),
                };
                let path_link = match t.path_link() {
                    Ok(x) => x,
                    Err(e) => return Err(e),
                };
                Ok(Command::SymLink(commands::SymLink { path, path_link }))
            },
            Some(Cmd::RENAME) => {
                let path = match t.path() {
                    Ok(x) => x,
                    Err(e) => return Err(e),
                };
                let path_to = match t.path_to() {
                    Ok(x) => x,
                    Err(e) => return Err(e),
                };
                Ok(Command::Rename(commands::Rename { path, path_to }))
            },
            Some(Cmd::LINK) => {
                let path = match t.path() {
                    Ok(x) => x,
                    Err(e) => return Err(e),
                };
                let path_link = match t.path_link() {
                    Ok(x) => x,
                    Err(e) => return Err(e),
                };
                Ok(Command::Link(commands::Link { path, path_link }))
            },
            Some(Cmd::UNLINK) => {
                let path = match t.path() {
                    Ok(x) => x,
                    Err(e) => return Err(e),
                };
                Ok(Command::UnLink(commands::UnLink { path }))
            },
            Some(Cmd::RMDIR) => {
                let path = match t.path() {
                    Ok(x) => x,
                    Err(e) => return Err(e),
                };
                Ok(Command::RmDir(commands::RmDir { path }))
            },
            Some(Cmd::WRITE) => {
                let path = match t.path() {
                    Ok(x) => x,
                    Err(e) => return Err(e),
                };
                let file_offset = match t.file_offset() {
                    Ok(x) => x,
                    Err(e) => return Err(e),
                };
                let data = match t.data() {
                    Ok(x) => slice_to_vec(x.as_slice()),
                    Err(e) => return Err(e),
                };
                Ok(Command::Write(commands::Write { path, file_offset, data }))
            },
            Some(Cmd::CLONE) => {
                let path = match t.path() {
                    Ok(x) => x,
                    Err(e) => return Err(e),
                };
                let file_offset = match t.file_offset() {
                    Ok(x) => x,
                    Err(e) => return Err(e),
                };
                let clone_len = match t.clone_len() {
                    Ok(x) => x,
                    Err(e) => return Err(e),
                };
                let clone_uuid = match t.clone_uuid() {
                    Ok(x) => x,
                    Err(e) => return Err(e),
                };
                let clone_ctransid = match t.clone_ctransid() {
                    Ok(x) => x,
                    Err(e) => return Err(e),
                };
                let clone_path = match t.clone_path() {
                    Ok(x) => x,
                    Err(e) => return Err(e),
                };
                let clone_offset = match t.clone_offset() {
                    Ok(x) => x,
                    Err(e) => return Err(e),
                };
                Ok(
                    Command::Clone(
                        commands::Clone {
                            path,
                            file_offset,
                            clone_len,
                            clone_uuid,
                            clone_ctransid,
                            clone_path,
                            clone_offset,
                        },
                    ),
                )
            },
            Some(Cmd::SET_XATTR) => {
                let path = match t.path() {
                    Ok(x) => x,
                    Err(e) => return Err(e),
                };
                let xattr_name = match t.xattr_name() {
                    Ok(x) => x,
                    Err(e) => return Err(e),
                };
                let xattr_data = match t.xattr_data() {
                    Ok(x) => slice_to_vec(x.as_slice()),
                    Err(e) => return Err(e),
                };
                Ok(Command::SetXattr(commands::SetXattr { path, xattr_name, xattr_data }))
            },
            Some(Cmd::REMOVE_XATTR) => {
                let path = match t.path() {
                    Ok(x) => x,
                    Err(e) => return Err(e),
                };
                let xattr_name = match t.xattr_name() {
                    Ok(x) => x,
                    Err(e) => return Err(e),
                };
                Ok(Command::RemoveXattr(commands::RemoveXattr { path, xattr_name }))
            },
            Some(Cmd::TRUNCATE) => {
                let path = match t.path() {
                    Ok(x) => x,
                    Err(e) => return Err(e),
                };
                let size = match t.size() {
                    Ok(x) => x,
                    Err(e) => return Err(e),
                };
                Ok(Command::Truncate(commands::Truncate { path, size }))
            },
            Some(Cmd::CHMOD) => {
                let path = match t.path() {
                    Ok(x) => x,
                    Err(e) => return Err(e),
                };
                let mode = match t.mode() {
                    Ok(x) => x,
                    Err(e) => return Err(e),
                };
                Ok(Command::Chmod(commands::Chmod { path, mode }))
            },
            Some(Cmd::CHOWN) => {
                let path = match t.path() {
                    Ok(x) => x,
                    Err(e) => return Err(e),
                };
                let uid = match t.uid() {
                    Ok(x) => x,
                    Err(e) => return Err(e),
                };
                let gid = match t.gid() {
                    Ok(x) => x,
                    Err(e) => return Err(e),
                };
                Ok(Command::Chown(commands::Chown { path, uid, gid }))
            },
            Some(Cmd::UTIMES) => {
                let path = match t.path() {
                    Ok(x) => x,
                    Err(e) => return Err(e),
                };
                let atime = match t.atime() {
                    Ok(x) => x,
                    Err(e) => return Err(e),
                };
                let mtime = match t.mtime() {
                    Ok(x) => x,
                    Err(e) => return Err(e),
                };
                let ctime = match t.ctime() {
                    Ok(x) => x,
                    Err(e) => return Err(e),
                };
                Ok(Command::Utimes(commands::Utimes { path, atime, mtime, ctime }))
            },
            Some(Cmd::UPDATE_EXTENT) => {
                let path = match t.path() {
                    Ok(x) => x,
                    Err(e) => return Err(e),
                };
                let file_offset = match t.file_offset() {
                    Ok(x) => x,
                    Err(e) => return Err(e),
                };
                let size = match t.size() {
                    Ok(x) => x,
                    Err(e) => return Err(e),
                };
                Ok(Command::UpdateExtent(commands::UpdateExtent { path, file_offset, size }))
            },
            Some(Cmd::END) => Ok(Command::End(commands::End {  })),
            _ => Ok(Command::Unknown(cmd)),
        }
    }

    /// Pull one raw command: a header, then exactly the declared number of
    /// body bytes as a TLV bag.  Clean end of stream is `Ok(None)`.
    pub fn read_generic_command(&mut self) -> (r: Result<Option<commands::Unknown>, Error>)
        requires
            old(self).wf(),
        ensures
            final(self).wf(),
            final(self).stream() == old(self).stream(),
            ({
                let s = old(self).stream();
                let p = old(self).offset();
                match spec_next_raw(s, p) {
                    Ok(opt) => match opt {
                        None => r == Ok::<Option<commands::Unknown>, Error>(None) && final(self).offset() == p,
                        Some(raw) => (r matches Ok(ou) && ou matches Some(u) && u@ == raw)
                            && final(self).offset() == p + HEADER_LEN + raw.header.len,
                    },
                    Err(e) => r == Err::<Option<commands::Unknown>, Error>(e),
                }
            }),
    {
        let header = match self.read_command_header() {
            Ok(Some(h)) => h,
            Ok(None) => return Ok(None),
            Err(e) => return Err(e),
        };
        let data = match self.read_tlvs(header.len) {
            Ok(d) => d,
            Err(e) => return Err(e),
        };
        Ok(Some(commands::Unknown { header, data }))
    }

    /// Pull one typed command: one raw command resolved by the dispatcher.
    /// This is the primary interface: each call yields exactly one decoded
    /// operation, `Ok(None)` at clean end of stream, or a terminal error.
    pub fn read_command(&mut self) -> (r: Result<Option<Command>, Error>)
        requires
            old(self).wf(),
        ensures
            final(self).wf(),
            final(self).stream() == old(self).stream(),
            ({
                let s = old(self).stream();
                let p = old(self).offset();
                match spec_next_raw(s, p) {
                    Ok(opt) => match opt {
                        None => r == Ok::<Option<Command>, Error>(None) && final(self).offset() == p,
                        Some(raw) => ({
                            let advanced = final(self).offset() == p + HEADER_LEN + raw.header.len;
                            match spec_parse_command(raw) {
                                Ok(cv) => (r matches Ok(oc) && oc matches Some(c) && c@ == cv)
                                    && advanced,
                                Err(e) => r == Err::<Option<Command>, Error>(e) && advanced,
                            }
                        }),
                    },
                    Err(e) => r == Err::<Option<Command>, Error>(e),
                }
            }),
    {
        let cmd = match self.read_generic_command() {
            Ok(Some(c)) => c,
            Ok(None) => return Ok(None),
            Err(e) => return Err(e),
        };
        match self.parse_command(cmd) {
            Ok(c) => Ok(Some(c)),
            Err(e) => Err(e),
        }
    }
}

/// How decoded operations are rendered.  There are no options yet; the
/// struct keeps the rendering interface stable.
pub struct CommandPrintOptions {
}

impl Default for CommandPrintOptions {
    fn default() -> (r: Self)
        ensures
            r == (CommandPrintOptions {  }),
    {
        CommandPrintOptions {  }
    }
}

/// The decimal digit for one value below ten.
pub open spec fn dec_digit(d: nat) -> char {
    if d == 0 {
        '0'
    } else if d == 1 {
        '1'
    } else if d == 2 {
        '2'
    } else if d == 3 {
        '3'
    } else if d == 4 {
        '4'
    } else if d == 5 {
        '5'
    } else if d == 6 {
        '6'
    } else if d == 7 {
        '7'
    } else if d == 8 {
        '8'
    } else {
        '9'
    }
}

/// The decimal rendering of a number, most significant digit first.
pub open spec fn spec_decimal(n: nat) -> Seq<char>
    decreases n,
{
    if n < 10 {
        seq![dec_digit(n)]
    } else {
        spec_decimal(n / 10).push(dec_digit(n % 10))
    }
}

/// Relies on `u64`'s `Display` implementation: plain decimal digits, no sign
/// and no padding.
#[verifier::external_body]
fn u64_to_decimal(n: u64) -> (r: String)
    ensures
        r@ == spec_decimal(n as nat),
{
    n.to_string()
}

/// The one-line rendering of a decoded operation: its name, and for a write
/// or an unknown command the fields a reader of a dump wants first.
pub open spec fn spec_render(c: CommandV) -> Seq<char> {
    match c {
        CommandV::Unknown { header, .. } => "Unknown { opcode = "@ + spec_decimal(
            header.cmd as nat,
        ) + " }\n"@,
        CommandV::Subvol { .. } => "Subvol\n"@,
        CommandV::Snapshot { .. } => "Snapshot\n"@,
        CommandV::MkFile { .. } => "MkFile\n"@,
        CommandV::MkDir { .. } => "MkDir\n"@,
        CommandV::MkNod { .. } => "MkNod\n"@,
        CommandV::MkFifo { .. } => "MkFifo\n"@,
        CommandV::MkSock { .. } => "MkSock\n"@,
        CommandV::SymLink { .. } => "SymLink\n"@,
        CommandV::Rename { .. } => "Rename\n"@,
        CommandV::Link { .. } => "Link\n"@,
        CommandV::UnLink { .. } => "UnLink\n"@,
        CommandV::RmDir { .. } => "RmDir\n"@,
        CommandV::Write { path, file_offset, data } => "Write { path = "@ + path
            + ", file_offset = "@ + spec_decimal(file_offset as nat) + ", data_len = "@
            + spec_decimal(data.len() as nat) + " }\n"@,
        CommandV::Clone { .. } => "Clone\n"@,
        CommandV::SetXattr { .. } => "SetXattr\n"@,
        CommandV::RemoveXattr { .. } => "RemoveXattr\n"@,
        CommandV::Truncate { .. } => "Truncate\n"@,
        CommandV::Chmod { .. } => "Chmod\n"@,
        CommandV::Chown { .. } => "Chown\n"@,
        CommandV::Utimes { .. } => "Utimes\n"@,
        CommandV::UpdateExtent { .. } => "UpdateExtent\n"@,
        CommandV::End => "End\n"@,
    }
}

impl Command {
    /// Render one line naming the operation; a write also shows its path, its
    /// offset, and its payload length, and an unknown command its opcode.
    pub fn print(&self, _opts: &CommandPrintOptions) -> (r: String)
        ensures
            r@ == spec_render(self@),
    {
        match self {
            Command::Unknown(u) => {
                let mut s = String::from_str("Unknown { opcode = ");
                let d = u64_to_decimal(u.header.cmd as u64);
                s.append(d.as_str());
                s.append(" }\n");
                s
            },
            Command::Write(w) => {
                let mut s = String::from_str("Write { path = ");
                s.append(w.path.as_str());
                s.append(", file_offset = ");
                let d1 = u64_to_decimal(w.file_offset);
                s.append(d1.as_str());
                s.append(", data_len = ");
                let d2 = u64_to_decimal(w.data.len() as u64);
                s.append(d2.as_str());
                s.append(" }\n");
                s
            },
            Command::Subvol(_) => String::from_str("Subvol\n"),
            Command::Snapshot(_) => String::from_str("Snapshot\n"),
            Command::MkFile(_) => String::from_str("MkFile\n"),
            Command::MkDir(_) => String::from_str("MkDir\n"),
            Command::MkNod(_) => String::from_str("MkNod\n"),
            Command::MkFifo(_) => String::from_str("MkFifo\n"),
            Command::MkSock(_) => String::from_str("MkSock\n"),
            Command::SymLink(_) => String::from_str("SymLink\n"),
            Command::Rename(_) => String::from_str("Rename\n"),
            Command::Link(_) => String::from_str("Link\n"),
            Command::UnLink(_) => String::from_str("UnLink\n"),
            Command::RmDir(_) => String::from_str("RmDir\n"),
            Command::Clone(_) => String::from_str("Clone\n"),
            Command::SetXattr(_) => String::from_str("SetXattr\n"),
            Command::RemoveXattr(_) => String::from_str("RemoveXattr\n"),
            Command::Truncate(_) => String::from_str("Truncate\n"),
            Command::Chmod(_) => String::from_str("Chmod\n"),
            Command::Chown(_) => String::from_str("Chown\n"),
            Command::Utimes(_) => String::from_str("Utimes\n"),
            Command::UpdateExtent(_) => String::from_str("UpdateExtent\n"),
            Command::End(_) => String::from_str("End\n"),
        }
    }
}

} // verus!
