use btrfs_send_parse::definitions::{Attr, Cmd};
use btrfs_send_parse::{BtrfsReader, Error, TLVData, TLVEntry};

fn bag(entries: Vec<(u16, Vec<u8>)>) -> TLVData {
    TLVData {
        entries: entries
            .into_iter()
            .map(|(key, value)| TLVEntry { key, value })
            .collect(),
    }
}

fn reader_over_body(body: &[u8]) -> BtrfsReader {
    let mut s = b"btrfs-stream\0".to_vec();
    s.extend_from_slice(&1u32.to_le_bytes());
    s.extend_from_slice(body);
    BtrfsReader::new(s).unwrap()
}

#[test]
fn scalar_getters_decode_little_endian() {
    let t = bag(vec![
        (1, vec![0xab]),
        (2, vec![0x34, 0x12]),
        (3, vec![0x78, 0x56, 0x34, 0x12]),
        (4, vec![0xf0, 0xde, 0xbc, 0x9a, 0x78, 0x56, 0x34, 0x12]),
    ]);
    assert_eq!(t.get_u8(1).unwrap(), 0xab);
    assert_eq!(t.get_u16(2).unwrap(), 0x1234);
    assert_eq!(t.get_u32(3).unwrap(), 0x12345678);
    assert_eq!(t.get_u64(4).unwrap(), 0x123456789abcdef0);
}

#[test]
fn extra_trailing_bytes_are_tolerated() {
    let t = bag(vec![(7, vec![0x2a, 0, 0, 0, 0, 0, 0, 0, 0xff, 0xff])]);
    assert_eq!(t.get_u64(7).unwrap(), 42);
    assert_eq!(t.get_u8(7).unwrap(), 0x2a);
}

#[test]
fn short_values_are_decode_errors() {
    let t = bag(vec![(1, vec![]), (2, vec![1]), (3, vec![1, 2]), (4, vec![1, 2, 3])]);
    assert_eq!(t.get_u8(1).unwrap_err(), Error::DecodeError);
    assert_eq!(t.get_u16(2).unwrap_err(), Error::DecodeError);
    assert_eq!(t.get_u32(3).unwrap_err(), Error::DecodeError);
    assert_eq!(t.get_u64(4).unwrap_err(), Error::DecodeError);
    assert_eq!(t.get_timespec(3).unwrap_err(), Error::DecodeError);
    assert_eq!(t.get_uuid(4).unwrap_err(), Error::DecodeError);
}

#[test]
fn absent_key_names_the_key() {
    let t = bag(vec![(1, vec![0])]);
    assert_eq!(t.get(9).unwrap_err(), Error::MissingAttribute(9));
    assert_eq!(t.get_u64(10).unwrap_err(), Error::MissingAttribute(10));
    assert_eq!(t.get_string(11).unwrap_err(), Error::MissingAttribute(11));
}

#[test]
fn duplicate_keys_resolve_to_the_first_entry() {
    let t = bag(vec![(5, vec![1]), (5, vec![2]), (5, vec![3])]);
    assert_eq!(t.get(5).unwrap(), &vec![1]);
    assert_eq!(t.get_u8(5).unwrap(), 1);
}

#[test]
fn strings_decode_utf8_exactly() {
    let t = bag(vec![(1, b"/some/path".to_vec()), (2, vec![0xff, 0xfe])]);
    assert_eq!(t.get_string(1).unwrap(), "/some/path");
    assert_eq!(t.get_string(2).unwrap_err(), Error::DecodeError);
}

#[test]
fn timespec_decodes_seconds_then_nanoseconds() {
    let mut v = 1700000000u64.to_le_bytes().to_vec();
    v.extend_from_slice(&999999999u32.to_le_bytes());
    let t = bag(vec![(9, v)]);
    let ts = t.get_timespec(9).unwrap();
    assert_eq!(ts.sec, 1700000000);
    assert_eq!(ts.nsec, 999999999);
}

#[test]
fn uuid_takes_the_first_sixteen_bytes() {
    let mut v: Vec<u8> = (1..=16u8).collect();
    v.push(0xee);
    let t = bag(vec![(1, v)]);
    let u = t.get_uuid(1).unwrap();
    let expect: Vec<u8> = (1..=16u8).collect();
    assert_eq!(u.data.to_vec(), expect);
}

#[test]
fn named_getters_use_their_attribute_keys() {
    let t = bag(vec![
        (Attr::PATH.code(), b"/p".to_vec()),
        (Attr::CTRANSID.code(), 5u64.to_le_bytes().to_vec()),
        (Attr::MODE.code(), 0o755u64.to_le_bytes().to_vec()),
    ]);
    assert_eq!(t.path().unwrap(), "/p");
    assert_eq!(t.ctransid().unwrap(), 5);
    assert_eq!(t.mode().unwrap(), 0o755);
    assert_eq!(
        t.path_to().unwrap_err(),
        Error::MissingAttribute(Attr::PATH_TO.code())
    );
}

#[test]
fn exact_framing_decodes_every_entry() {
    // two entries: (key 1, three bytes) and (key 2, no bytes)
    let mut body = Vec::new();
    body.extend_from_slice(&1u16.to_le_bytes());
    body.extend_from_slice(&3u16.to_le_bytes());
    body.extend_from_slice(&[0xaa, 0xbb, 0xcc]);
    body.extend_from_slice(&2u16.to_le_bytes());
    body.extend_from_slice(&0u16.to_le_bytes());
    let mut r = reader_over_body(&body);
    let t = r.read_tlvs(body.len() as u32).unwrap();
    assert_eq!(t.entries.len(), 2);
    assert_eq!(t.entries[0].key, 1);
    assert_eq!(t.entries[0].value, vec![0xaa, 0xbb, 0xcc]);
    assert_eq!(t.entries[1].key, 2);
    assert_eq!(t.entries[1].value, Vec::<u8>::new());
}

#[test]
fn leftover_overhead_is_a_framing_error() {
    // declared body length leaves two bytes: less than one entry's overhead
    let body = [1u8, 0];
    let mut r = reader_over_body(&body);
    assert_eq!(r.read_tlvs(2).unwrap_err(), Error::FramingError);
}

#[test]
fn value_crossing_the_boundary_is_a_framing_error() {
    // entry declares five value bytes but the command budget holds only two
    let mut body = Vec::new();
    body.extend_from_slice(&1u16.to_le_bytes());
    body.extend_from_slice(&5u16.to_le_bytes());
    body.extend_from_slice(&[0xaa, 0xbb]);
    let len = body.len() as u32;
    // more stream bytes follow the region, so this is framing, not truncation
    body.extend_from_slice(&[0u8; 16]);
    let mut r = reader_over_body(&body);
    assert_eq!(r.read_tlvs(len).unwrap_err(), Error::FramingError);
}

#[test]
fn body_longer_than_the_stream_is_truncation() {
    let body = [1u8, 0, 0, 0];
    let mut r = reader_over_body(&body);
    assert_eq!(r.read_tlvs(64).unwrap_err(), Error::TruncatedStream);
}

#[test]
fn empty_body_is_an_empty_bag() {
    let mut r = reader_over_body(&[]);
    let t = r.read_tlvs(0).unwrap();
    assert!(t.entries.is_empty());
}

#[test]
fn largest_value_length_round_trips() {
    // one entry whose value fills the 16-bit length field completely
    let value = vec![0x5au8; u16::MAX as usize];
    let mut body = Vec::new();
    body.extend_from_slice(&3u16.to_le_bytes());
    body.extend_from_slice(&u16::MAX.to_le_bytes());
    body.extend_from_slice(&value);
    let mut r = reader_over_body(&body);
    let t = r.read_tlvs(body.len() as u32).unwrap();
    assert_eq!(t.entries.len(), 1);
    assert_eq!(t.entries[0].key, 3);
    assert_eq!(t.entries[0].value, value);
}

#[test]
fn command_header_fields_read_in_wire_order() {
    let mut body = Vec::new();
    body.extend_from_slice(&258u32.to_le_bytes());
    body.extend_from_slice(&Cmd::WRITE.code().to_le_bytes());
    body.extend_from_slice(&0xdeadbeefu32.to_le_bytes());
    let mut r = reader_over_body(&body);
    let h = r.read_command_header().unwrap().unwrap();
    assert_eq!(h.len, 258);
    assert_eq!(h.cmd, Cmd::WRITE.code());
    assert_eq!(h.crc32, 0xdeadbeef);
}

#[test]
fn generic_command_keeps_header_and_raw_bag() {
    let mut stream_body = Vec::new();
    let mut body = Vec::new();
    body.extend_from_slice(&6u16.to_le_bytes());
    body.extend_from_slice(&1u16.to_le_bytes());
    body.push(0x7f);
    stream_body.extend_from_slice(&(body.len() as u32).to_le_bytes());
    stream_body.extend_from_slice(&Cmd::CHOWN.code().to_le_bytes());
    stream_body.extend_from_slice(&5u32.to_le_bytes());
    stream_body.extend_from_slice(&body);
    let mut r = reader_over_body(&stream_body);
    let raw = r.read_generic_command().unwrap().unwrap();
    assert_eq!(raw.header.cmd, Cmd::CHOWN.code());
    assert_eq!(raw.header.len, body.len() as u32);
    assert_eq!(raw.header.crc32, 5);
    assert_eq!(raw.data.entries.len(), 1);
    assert_eq!(raw.data.entries[0].key, 6);
    assert_eq!(raw.data.entries[0].value, vec![0x7f]);
    assert!(r.read_generic_command().unwrap().is_none());
}

#[test]
fn header_at_end_of_stream_is_none() {
    let mut r = reader_over_body(&[]);
    assert!(r.read_command_header().unwrap().is_none());
}

#[test]
fn partial_header_is_truncated_stream() {
    let mut r = reader_over_body(&[1, 2, 3, 4, 5]);
    assert_eq!(r.read_command_header().unwrap_err(), Error::TruncatedStream);
}
