use btrfs_send_parse::commands;
use btrfs_send_parse::definitions::{Attr, Cmd};
use btrfs_send_parse::{BtrfsReader, Command, CommandHeader, CommandPrintOptions, Error, TLVData,
    TLVEntry};

fn put_entry(body: &mut Vec<u8>, key: u16, value: &[u8]) {
    body.extend_from_slice(&key.to_le_bytes());
    body.extend_from_slice(&(value.len() as u16).to_le_bytes());
    body.extend_from_slice(value);
}

fn decode_one(opcode: u16, body: &[u8]) -> Result<Command, Error> {
    let mut s = b"btrfs-stream\0".to_vec();
    s.extend_from_slice(&1u32.to_le_bytes());
    s.extend_from_slice(&(body.len() as u32).to_le_bytes());
    s.extend_from_slice(&opcode.to_le_bytes());
    s.extend_from_slice(&7u32.to_le_bytes());
    s.extend_from_slice(body);
    let mut reader = BtrfsReader::new(s).unwrap();
    reader.read_command().map(|c| c.unwrap())
}

#[test]
fn unknown_opcode_round_trips_raw_pairs() {
    let mut body = Vec::new();
    put_entry(&mut body, 999, &[1, 2, 3]);
    put_entry(&mut body, 4, &[0xfe]);
    match decode_one(100, &body).unwrap() {
        Command::Unknown(u) => {
            assert_eq!(u.header.cmd, 100);
            assert_eq!(u.header.len, body.len() as u32);
            assert_eq!(u.header.crc32, 7);
            assert_eq!(u.data.entries.len(), 2);
            assert_eq!(u.data.entries[0].key, 999);
            assert_eq!(u.data.entries[0].value, vec![1, 2, 3]);
            assert_eq!(u.data.entries[1].key, 4);
            assert_eq!(u.data.entries[1].value, vec![0xfe]);
        }
        other => panic!("expected an unknown command, got {:?}", other),
    }
}

#[test]
fn unspec_opcode_is_unknown_too() {
    assert!(matches!(decode_one(0, &[]).unwrap(), Command::Unknown(_)));
    assert!(matches!(decode_one(23, &[]).unwrap(), Command::Unknown(_)));
}

#[test]
fn missing_mandatory_attribute_names_the_key() {
    let mut body = Vec::new();
    put_entry(&mut body, Attr::PATH.code(), b"/f");
    // chmod demands a mode; none is present
    assert_eq!(
        decode_one(Cmd::CHMOD.code(), &body).unwrap_err(),
        Error::MissingAttribute(Attr::MODE.code())
    );
    // subvolume-create demands a path first of all
    assert_eq!(
        decode_one(Cmd::SUBVOL.code(), &[]).unwrap_err(),
        Error::MissingAttribute(Attr::PATH.code())
    );
}

#[test]
fn invalid_utf8_path_is_a_decode_error() {
    let mut body = Vec::new();
    put_entry(&mut body, Attr::PATH.code(), &[0xc3, 0x28]);
    assert_eq!(
        decode_one(Cmd::MKFILE.code(), &body).unwrap_err(),
        Error::DecodeError
    );
}

#[test]
fn snapshot_decodes_all_five_fields() {
    let mut body = Vec::new();
    put_entry(&mut body, Attr::PATH.code(), b"/snap");
    put_entry(&mut body, Attr::UUID.code(), &[3u8; 16]);
    put_entry(&mut body, Attr::CTRANSID.code(), &11u64.to_le_bytes());
    put_entry(&mut body, Attr::CLONE_UUID.code(), &[4u8; 16]);
    put_entry(&mut body, Attr::CLONE_CTRANSID.code(), &12u64.to_le_bytes());
    match decode_one(Cmd::SNAPSHOT.code(), &body).unwrap() {
        Command::Snapshot(c) => {
            assert_eq!(c.path, "/snap");
            assert_eq!(c.uuid.data, [3u8; 16]);
            assert_eq!(c.ctransid, 11);
            assert_eq!(c.clone_uuid.data, [4u8; 16]);
            assert_eq!(c.clone_ctransid, 12);
        }
        other => panic!("expected a snapshot, got {:?}", other),
    }
}

#[test]
fn path_only_commands_decode() {
    let mut body = Vec::new();
    put_entry(&mut body, Attr::PATH.code(), b"/p");
    assert!(matches!(decode_one(Cmd::MKFILE.code(), &body).unwrap(),
        Command::MkFile(c) if c.path == "/p"));
    assert!(matches!(decode_one(Cmd::MKDIR.code(), &body).unwrap(),
        Command::MkDir(c) if c.path == "/p"));
    assert!(matches!(decode_one(Cmd::MKFIFO.code(), &body).unwrap(),
        Command::MkFifo(c) if c.path == "/p"));
    assert!(matches!(decode_one(Cmd::MKSOCK.code(), &body).unwrap(),
        Command::MkSock(c) if c.path == "/p"));
    assert!(matches!(decode_one(Cmd::UNLINK.code(), &body).unwrap(),
        Command::UnLink(c) if c.path == "/p"));
    assert!(matches!(decode_one(Cmd::RMDIR.code(), &body).unwrap(),
        Command::RmDir(c) if c.path == "/p"));
}

#[test]
fn mknod_decodes_mode_and_device() {
    let mut body = Vec::new();
    put_entry(&mut body, Attr::PATH.code(), b"/dev/x");
    put_entry(&mut body, Attr::MODE.code(), &0o600u64.to_le_bytes());
    put_entry(&mut body, Attr::RDEV.code(), &0x0901u64.to_le_bytes());
    match decode_one(Cmd::MKNOD.code(), &body).unwrap() {
        Command::MkNod(c) => {
            assert_eq!(c.path, "/dev/x");
            assert_eq!(c.mode, 0o600);
            assert_eq!(c.rdev, 0x0901);
        }
        other => panic!("expected a device node, got {:?}", other),
    }
}

#[test]
fn two_path_commands_decode() {
    let mut body = Vec::new();
    put_entry(&mut body, Attr::PATH.code(), b"/a");
    put_entry(&mut body, Attr::PATH_LINK.code(), b"/b");
    assert!(matches!(decode_one(Cmd::SYMLINK.code(), &body).unwrap(),
        Command::SymLink(c) if c.path == "/a" && c.path_link == "/b"));
    assert!(matches!(decode_one(Cmd::LINK.code(), &body).unwrap(),
        Command::Link(c) if c.path == "/a" && c.path_link == "/b"));

    let mut body = Vec::new();
    put_entry(&mut body, Attr::PATH.code(), b"/a");
    put_entry(&mut body, Attr::PATH_TO.code(), b"/b");
    assert!(matches!(decode_one(Cmd::RENAME.code(), &body).unwrap(),
        Command::Rename(c) if c.path == "/a" && c.path_to == "/b"));
}

#[test]
fn clone_decodes_all_seven_fields() {
    let mut body = Vec::new();
    put_entry(&mut body, Attr::PATH.code(), b"/dst");
    put_entry(&mut body, Attr::FILE_OFFSET.code(), &8192u64.to_le_bytes());
    put_entry(&mut body, Attr::CLONE_LEN.code(), &4096u64.to_le_bytes());
    put_entry(&mut body, Attr::CLONE_UUID.code(), &[9u8; 16]);
    put_entry(&mut body, Attr::CLONE_CTRANSID.code(), &77u64.to_le_bytes());
    put_entry(&mut body, Attr::CLONE_PATH.code(), b"/src");
    put_entry(&mut body, Attr::CLONE_OFFSET.code(), &512u64.to_le_bytes());
    match decode_one(Cmd::CLONE.code(), &body).unwrap() {
        Command::Clone(c) => {
            assert_eq!(c.path, "/dst");
            assert_eq!(c.file_offset, 8192);
            assert_eq!(c.clone_len, 4096);
            assert_eq!(c.clone_uuid.data, [9u8; 16]);
            assert_eq!(c.clone_ctransid, 77);
            assert_eq!(c.clone_path, "/src");
            assert_eq!(c.clone_offset, 512);
        }
        other => panic!("expected a clone, got {:?}", other),
    }
}

#[test]
fn xattr_commands_decode() {
    let mut body = Vec::new();
    put_entry(&mut body, Attr::PATH.code(), b"/f");
    put_entry(&mut body, Attr::XATTR_NAME.code(), b"user.k");
    put_entry(&mut body, Attr::XATTR_DATA.code(), &[9, 9]);
    match decode_one(Cmd::SET_XATTR.code(), &body).unwrap() {
        Command::SetXattr(c) => {
            assert_eq!(c.path, "/f");
            assert_eq!(c.xattr_name, "user.k");
            assert_eq!(c.xattr_data, vec![9, 9]);
        }
        other => panic!("expected set-xattr, got {:?}", other),
    }
    let mut body = Vec::new();
    put_entry(&mut body, Attr::PATH.code(), b"/f");
    put_entry(&mut body, Attr::XATTR_NAME.code(), b"user.k");
    assert!(matches!(decode_one(Cmd::REMOVE_XATTR.code(), &body).unwrap(),
        Command::RemoveXattr(c) if c.path == "/f" && c.xattr_name == "user.k"));
}

#[test]
fn scalar_commands_decode() {
    let mut body = Vec::new();
    put_entry(&mut body, Attr::PATH.code(), b"/f");
    put_entry(&mut body, Attr::SIZE.code(), &123u64.to_le_bytes());
    assert!(matches!(decode_one(Cmd::TRUNCATE.code(), &body).unwrap(),
        Command::Truncate(c) if c.path == "/f" && c.size == 123));

    let mut body = Vec::new();
    put_entry(&mut body, Attr::PATH.code(), b"/f");
    put_entry(&mut body, Attr::MODE.code(), &0o644u64.to_le_bytes());
    assert!(matches!(decode_one(Cmd::CHMOD.code(), &body).unwrap(),
        Command::Chmod(c) if c.path == "/f" && c.mode == 0o644));

    let mut body = Vec::new();
    put_entry(&mut body, Attr::PATH.code(), b"/f");
    put_entry(&mut body, Attr::UID.code(), &1000u64.to_le_bytes());
    put_entry(&mut body, Attr::GID.code(), &100u64.to_le_bytes());
    assert!(matches!(decode_one(Cmd::CHOWN.code(), &body).unwrap(),
        Command::Chown(c) if c.path == "/f" && c.uid == 1000 && c.gid == 100));
}

#[test]
fn utimes_decodes_three_timestamps() {
    let mut ts = Vec::new();
    ts.extend_from_slice(&10u64.to_le_bytes());
    ts.extend_from_slice(&20u32.to_le_bytes());
    let mut body = Vec::new();
    put_entry(&mut body, Attr::PATH.code(), b"/f");
    put_entry(&mut body, Attr::ATIME.code(), &ts);
    put_entry(&mut body, Attr::MTIME.code(), &ts);
    put_entry(&mut body, Attr::CTIME.code(), &ts);
    match decode_one(Cmd::UTIMES.code(), &body).unwrap() {
        Command::Utimes(c) => {
            assert_eq!(c.path, "/f");
            assert_eq!(c.atime.sec, 10);
            assert_eq!(c.atime.nsec, 20);
            assert_eq!(c.mtime.sec, 10);
            assert_eq!(c.ctime.nsec, 20);
        }
        other => panic!("expected utimes, got {:?}", other),
    }
}

#[test]
fn update_extent_decodes() {
    let mut body = Vec::new();
    put_entry(&mut body, Attr::PATH.code(), b"/f");
    put_entry(&mut body, Attr::FILE_OFFSET.code(), &64u64.to_le_bytes());
    put_entry(&mut body, Attr::SIZE.code(), &32u64.to_le_bytes());
    assert!(matches!(decode_one(Cmd::UPDATE_EXTENT.code(), &body).unwrap(),
        Command::UpdateExtent(c) if c.path == "/f" && c.file_offset == 64 && c.size == 32));
}

#[test]
fn parse_command_works_on_a_hand_built_raw_command() {
    let mut s = b"btrfs-stream\0".to_vec();
    s.extend_from_slice(&1u32.to_le_bytes());
    let reader = BtrfsReader::new(s).unwrap();
    let raw = commands::Unknown {
        header: CommandHeader { len: 0, cmd: Cmd::END.code(), crc32: 0 },
        data: TLVData { entries: vec![] },
    };
    assert!(matches!(reader.parse_command(raw).unwrap(), Command::End(_)));

    let raw = commands::Unknown {
        header: CommandHeader { len: 8, cmd: Cmd::RMDIR.code(), crc32: 0 },
        data: TLVData {
            entries: vec![TLVEntry { key: Attr::PATH.code(), value: b"/gone".to_vec() }],
        },
    };
    assert!(matches!(reader.parse_command(raw).unwrap(),
        Command::RmDir(c) if c.path == "/gone"));
}

#[test]
fn print_renders_a_write_line_exactly() {
    let opts = CommandPrintOptions::default();
    let mut body = Vec::new();
    put_entry(&mut body, Attr::PATH.code(), b"/a/b");
    put_entry(&mut body, Attr::FILE_OFFSET.code(), &100u64.to_le_bytes());
    put_entry(&mut body, Attr::DATA.code(), &[0x41u8; 10]);
    let c = decode_one(Cmd::WRITE.code(), &body).unwrap();
    assert_eq!(
        c.print(&opts),
        "Write { path = /a/b, file_offset = 100, data_len = 10 }\n"
    );
}

#[test]
fn print_names_the_operation() {
    let opts = CommandPrintOptions::default();
    let mut body = Vec::new();
    put_entry(&mut body, Attr::PATH.code(), b"/p");
    let c = decode_one(Cmd::RMDIR.code(), &body).unwrap();
    assert_eq!(c.print(&opts), "RmDir\n");
    let u = decode_one(200, &[]).unwrap();
    assert_eq!(u.print(&opts), "Unknown { opcode = 200 }\n");
    let e = decode_one(Cmd::END.code(), &[]).unwrap();
    assert_eq!(e.print(&opts), "End\n");
}
