//! The laws of the wire format: framing accounts exactly for the declared
//! length, encoding and decoding invert each other, unknown opcodes pass
//! through untouched, and a missing-attribute error names a genuinely absent
//! key.

use vstd::prelude::*;
use vstd::bytes::{spec_u16_to_le_bytes, spec_u32_to_le_bytes};
use vstd::bytes::{spec_u16_from_le_bytes, spec_u32_from_le_bytes};
use vstd::bytes::{lemma_auto_spec_u16_to_from_le_bytes, lemma_auto_spec_u32_to_from_le_bytes};
use crate::Error;
use crate::definitions::{Attr, Cmd, spec_magic};
use crate::reader::{CommandV, HEADER_LEN, RawCommandModel};
use crate::reader::{header_check, spec_header_at, spec_next_raw, spec_parse_command};
use crate::tlv::{TLVEntryModel, encode_entries, encode_entry, entries_fit, entries_wire_len,
    parse_entries, sget};

verus! {

/// A raw command can be put on the wire as it stands: every value length
/// fits its 16-bit field, and the header's declared length is exactly the
/// framing account of the entries.
pub open spec fn raw_fits(raw: RawCommandModel) -> bool {
    entries_fit(raw.entries) && raw.header.len == entries_wire_len(raw.entries)
}

/// The bytes of one framed command: header fields, then the TLV body.
pub open spec fn encode_raw_command(raw: RawCommandModel) -> Seq<u8> {
    spec_u32_to_le_bytes(raw.header.len) + spec_u16_to_le_bytes(raw.header.cmd)
        + spec_u32_to_le_bytes(raw.header.crc32) + encode_entries(raw.entries)
}

/// The bytes of a sequence of framed commands, in order.
pub open spec fn encode_raw_stream(raws: Seq<RawCommandModel>) -> Seq<u8>
    decreases raws.len(),
{
    if raws.len() == 0 {
        Seq::<u8>::empty()
    } else {
        encode_raw_command(raws[0]) + encode_raw_stream(raws.drop_first())
    }
}

/// A whole synthetic stream: the magic signature, the supported version,
/// then the framed commands.
pub open spec fn encode_stream(raws: Seq<RawCommandModel>) -> Seq<u8> {
    spec_magic() + spec_u32_to_le_bytes(1u32) + encode_raw_stream(raws)
}

/// The whole-stream decode from position `p`: every remaining raw command,
/// or `None` if any pull would fail.
pub open spec fn decode_raw_stream(s: Seq<u8>, p: int) -> Option<Seq<RawCommandModel>>
    decreases s.len() - p
        when 0 <= p <= s.len()
{
    if p == s.len() {
        Some(Seq::<RawCommandModel>::empty())
    } else if s.len() - p < HEADER_LEN {
        None
    } else {
        let h = spec_header_at(s, p);
        if p + HEADER_LEN + h.len > s.len() {
            None
        } else {
            match parse_entries(s.subrange(p + HEADER_LEN, p + HEADER_LEN + h.len)) {
                Some(es) => match decode_raw_stream(s, p + HEADER_LEN + h.len) {
                    Some(rest) => Some(seq![RawCommandModel { header: h, entries: es }] + rest),
                    None => None,
                },
                None => None,
            }
        }
    }
}

/// The framing account is never negative.
pub proof fn lemma_wire_len_nonneg(es: Seq<TLVEntryModel>)
    ensures
        entries_wire_len(es) >= 0,
    decreases es.len(),
{
    if es.len() > 0 {
        lemma_wire_len_nonneg(es.drop_first());
    }
}

/// An encoded bag occupies exactly its framing account of bytes.
pub proof fn lemma_encode_entries_len(es: Seq<TLVEntryModel>)
    ensures
        encode_entries(es).len() == entries_wire_len(es),
    decreases es.len(),
{
    lemma_auto_spec_u16_to_from_le_bytes();
    if es.len() > 0 {
        lemma_encode_entries_len(es.drop_first());
    }
}

/// Exact framing, one direction of the accounting law: whatever bag a byte
/// region decodes to, the per-entry overhead of four bytes plus each value's
/// length sums to exactly the region's length.
pub proof fn lemma_parse_entries_exact_accounting(b: Seq<u8>, es: Seq<TLVEntryModel>)
    requires
        parse_entries(b) == Some(es),
    ensures
        entries_wire_len(es) == b.len(),
    decreases b.len(),
{
    if b.len() == 0 {
        assert(es =~= Seq::<TLVEntryModel>::empty());
    } else {
        let vlen = spec_u16_from_le_bytes(b.subrange(2, 4)) as int;
        let next = b.subrange(4 + vlen, b.len() as int);
        let e = TLVEntryModel {
            key: spec_u16_from_le_bytes(b.subrange(0, 2)),
            value: b.subrange(4, 4 + vlen),
        };
        match parse_entries(next) {
            Some(rest) => {
                lemma_parse_entries_exact_accounting(next, rest);
                assert(es == seq![e] + rest);
                assert(es[0] == e);
                assert(es.drop_first() =~= rest);
                assert(e.value.len() == vlen);
            },
            None => {
                assert(false);
            },
        }
    }
}

/// Decoding inverts encoding for one bag: a bag whose values fit their
/// length fields reads back exactly from its own bytes.
pub proof fn lemma_entries_round_trip(es: Seq<TLVEntryModel>)
    requires
        entries_fit(es),
    ensures
        parse_entries(encode_entries(es)) == Some(es),
    decreases es.len(),
{
    lemma_auto_spec_u16_to_from_le_bytes();
    if es.len() == 0 {
        assert(encode_entries(es) =~= Seq::<u8>::empty());
        assert(Some(Seq::<TLVEntryModel>::empty()) == Some(es)) by {
            assert(es =~= Seq::<TLVEntryModel>::empty());
        }
    } else {
        let e = es[0];
        let rest = es.drop_first();
        let b = encode_entries(es);
        let eb = encode_entry(e);
        let rb = encode_entries(rest);
        assert(b == eb + rb);
        assert(es[0].value.len() <= u16::MAX);
        let vlen = e.value.len() as int;
        assert(eb.len() == 4 + vlen);
        assert(b.subrange(0, 2) =~= spec_u16_to_le_bytes(e.key));
        assert(b.subrange(2, 4) =~= spec_u16_to_le_bytes(e.value.len() as u16));
        assert(spec_u16_from_le_bytes(b.subrange(0, 2)) == e.key);
        assert(spec_u16_from_le_bytes(b.subrange(2, 4)) == e.value.len() as u16);
        assert(b.subrange(4, 4 + vlen) =~= e.value);
        assert(b.subrange(4 + vlen, b.len() as int) =~= rb);
        assert forall|i: int| 0 <= i < rest.len() implies (#[trigger] rest[i].value.len())
            <= u16::MAX by {
            assert(rest[i] == es[i + 1]);
        }
        lemma_entries_round_trip(rest);
        assert((TLVEntryModel { key: e.key, value: e.value }) == e);
        assert(seq![e] + rest =~= es);
    }
}

/// Decoding inverts encoding from any position: if everything in front of
/// the cursor is the encoding of a command sequence, the whole-stream decode
/// recovers exactly that sequence.
pub proof fn lemma_decode_encoded_suffix(s: Seq<u8>, p: int, raws: Seq<RawCommandModel>)
    requires
        0 <= p <= s.len(),
        s.subrange(p, s.len() as int) == encode_raw_stream(raws),
        forall|i: int| 0 <= i < raws.len() ==> raw_fits(#[trigger] raws[i]),
    ensures
        decode_raw_stream(s, p) == Some(raws),
    decreases raws.len(),
{
    lemma_auto_spec_u16_to_from_le_bytes();
    lemma_auto_spec_u32_to_from_le_bytes();
    let suffix = s.subrange(p, s.len() as int);
    if raws.len() == 0 {
        assert(suffix.len() == 0);
        assert(p == s.len());
        assert(raws =~= Seq::<RawCommandModel>::empty());
    } else {
        let raw = raws[0];
        let rest = raws.drop_first();
        let body = encode_entries(raw.entries);
        lemma_encode_entries_len(raw.entries);
        lemma_wire_len_nonneg(raw.entries);
        let enc = encode_raw_command(raw);
        let tail = encode_raw_stream(rest);
        let la = spec_u32_to_le_bytes(raw.header.len);
        let lb = spec_u16_to_le_bytes(raw.header.cmd);
        let lc = spec_u32_to_le_bytes(raw.header.crc32);
        let hl = raw.header.len as int;
        assert(enc.len() == HEADER_LEN + hl);
        assert(suffix == enc + tail);
        assert(suffix.len() == enc.len() + tail.len());
        assert(suffix.len() == s.len() - p);
        assert(s.len() - p >= HEADER_LEN + hl);
        // every byte of the command frame sits at its place in `s`
        assert forall|k: int| 0 <= k < HEADER_LEN + hl implies s[p + k] == enc[k] by {
            assert(suffix[k] == s[p + k]);
            assert((enc + tail)[k] == enc[k]);
        }
        assert(s.subrange(p, p + 4) =~= la) by {
            assert forall|k: int| 0 <= k < 4 implies s.subrange(p, p + 4)[k] == la[k] by {
                assert(s[p + k] == enc[k]);
                assert((((la + lb) + lc) + body)[k] == ((la + lb) + lc)[k]);
                assert(((la + lb) + lc)[k] == (la + lb)[k]);
                assert((la + lb)[k] == la[k]);
            }
        }
        assert(s.subrange(p + 4, p + 6) =~= lb) by {
            assert forall|k: int| 0 <= k < 2 implies s.subrange(p + 4, p + 6)[k] == lb[k] by {
                assert(s.subrange(p + 4, p + 6)[k] == s[p + (4 + k)]);
                assert(s[p + (4 + k)] == enc[4 + k]);
                assert((((la + lb) + lc) + body)[4 + k] == ((la + lb) + lc)[4 + k]);
                assert(((la + lb) + lc)[4 + k] == (la + lb)[4 + k]);
                assert((la + lb)[4 + k] == lb[k]);
            }
        }
        assert(s.subrange(p + 6, p + 10) =~= lc) by {
            assert forall|k: int| 0 <= k < 4 implies s.subrange(p + 6, p + 10)[k] == lc[k] by {
                assert(s.subrange(p + 6, p + 10)[k] == s[p + (6 + k)]);
                assert(s[p + (6 + k)] == enc[6 + k]);
                assert((((la + lb) + lc) + body)[6 + k] == ((la + lb) + lc)[6 + k]);
                assert(((la + lb) + lc)[6 + k] == lc[k]);
            }
        }
        let h = spec_header_at(s, p);
        assert(h.len == raw.header.len);
        assert(h.cmd == raw.header.cmd);
        assert(h.crc32 == raw.header.crc32);
        assert(h == raw.header);
        assert(s.subrange(p + HEADER_LEN, p + HEADER_LEN + hl) =~= body) by {
            assert forall|k: int| 0 <= k < hl implies s.subrange(
                p + HEADER_LEN,
                p + HEADER_LEN + hl,
            )[k] == body[k] by {
                assert(s.subrange(p + HEADER_LEN, p + HEADER_LEN + hl)[k] == s[p + (10 + k)]);
                assert(s[p + (10 + k)] == enc[10 + k]);
                assert((((la + lb) + lc) + body)[10 + k] == body[k]);
            }
        }
        lemma_entries_round_trip(raw.entries);
        let p_next = p + HEADER_LEN + hl;
        assert(suffix.len() == enc.len() + tail.len());
        assert(s.len() == p + HEADER_LEN + hl + tail.len());
        assert(s.subrange(p_next, s.len() as int) =~= tail) by {
            assert forall|k: int| 0 <= k < tail.len() implies s.subrange(
                p_next,
                s.len() as int,
            )[k] == tail[k] by {
                assert(s.subrange(p_next, s.len() as int)[k] == s[p + (HEADER_LEN + hl + k)]);
                assert(suffix[HEADER_LEN + hl + k] == s[p + (HEADER_LEN + hl + k)]);
                assert((enc + tail)[HEADER_LEN + hl + k] == tail[k]);
            }
        }
        assert forall|i: int| 0 <= i < rest.len() implies raw_fits(#[trigger] rest[i]) by {
            assert(rest[i] == raws[i + 1]);
        }
        lemma_decode_encoded_suffix(s, p_next, rest);
        assert(seq![raw] + rest =~= raws);
    }
}

/// For any synthetic stream of well-formed commands, decoding recovers
/// exactly those commands, in order, and reaches the end of the bytes.
pub proof fn lemma_stream_round_trip(raws: Seq<RawCommandModel>)
    requires
        forall|i: int| 0 <= i < raws.len() ==> raw_fits(#[trigger] raws[i]),
    ensures
        header_check(encode_stream(raws)) == Ok::<u32, Error>(1u32),
        decode_raw_stream(encode_stream(raws), 17) == Some(raws),
{
    lemma_auto_spec_u32_to_from_le_bytes();
    let s = encode_stream(raws);
    assert(spec_magic().len() == 13);
    assert(s.len() >= 17);
    assert(s.subrange(0, 13) =~= spec_magic());
    assert(s.subrange(13, 17) =~= spec_u32_to_le_bytes(1u32));
    assert(spec_u32_from_le_bytes(s.subrange(13, 17)) == 1u32);
    assert(s.subrange(17, s.len() as int) =~= encode_raw_stream(raws));
    lemma_decode_encoded_suffix(s, 17, raws);
}

/// One pull of the reader agrees with one step of the whole-stream decode:
/// an empty remainder is clean end of stream, and otherwise the next raw
/// command is the decoded sequence's head.
pub proof fn lemma_decode_step(s: Seq<u8>, p: int, raws: Seq<RawCommandModel>)
    requires
        0 <= p <= s.len(),
        decode_raw_stream(s, p) == Some(raws),
    ensures
        raws.len() == 0 ==> spec_next_raw(s, p) == Ok::<Option<RawCommandModel>, Error>(None),
        raws.len() > 0 ==> spec_next_raw(s, p) == Ok::<Option<RawCommandModel>, Error>(
            Some(raws[0]),
        ) && decode_raw_stream(s, p + HEADER_LEN + raws[0].header.len) == Some(raws.drop_first()),
{
    if p == s.len() {
        assert(raws =~= Seq::<RawCommandModel>::empty());
    } else {
        let h = spec_header_at(s, p);
        match parse_entries(s.subrange(p + HEADER_LEN, p + HEADER_LEN + h.len)) {
            Some(es) => {
                let raw = RawCommandModel { header: h, entries: es };
                match decode_raw_stream(s, p + HEADER_LEN + h.len) {
                    Some(rest) => {
                        assert(raws == seq![raw] + rest);
                        assert(raws[0] == raw);
                        assert(raws.drop_first() =~= rest);
                    },
                    None => {
                        assert(false);
                    },
                }
            },
            None => {
                assert(false);
            },
        }
    }
}

/// An opcode is known exactly when the dispatcher resolves it to a typed
/// record: the codes after `UNSPEC` up to the last defined one.
pub open spec fn known_opcode(c: u16) -> bool {
    Cmd::SUBVOL.spec_code() <= c <= Cmd::UPDATE_EXTENT.spec_code()
}

/// Unknown opcodes round-trip: for an opcode outside the known set the
/// dispatcher returns `Unknown`, preserving the opcode and every raw
/// key-value pair unchanged.
pub proof fn lemma_unknown_round_trip(u: RawCommandModel)
    requires
        !known_opcode(u.header.cmd),
    ensures
        spec_parse_command(u) == Ok::<CommandV, Error>(
            CommandV::Unknown { header: u.header, entries: u.entries },
        ),
{
}

/// A missing-attribute error is honest: whenever resolution fails with
/// `MissingAttribute(k)`, no entry of the bag carries the key `k`.
pub proof fn lemma_missing_attribute_is_absent(u: RawCommandModel, k: u16)
    requires
        spec_parse_command(u) == Err::<CommandV, Error>(Error::MissingAttribute(k)),
    ensures
        sget(u.entries, k) is None,
{
}

/// The mandatory attribute keys the dispatcher demands of each known opcode.
pub open spec fn mandatory_key(c: u16, k: u16) -> bool {
    match Cmd::spec_from_u16(c) {
        Some(Cmd::SUBVOL) => k == Attr::PATH.spec_code() || k == Attr::UUID.spec_code() || k
            == Attr::CTRANSID.spec_code(),
        Some(Cmd::SNAPSHOT) => k == Attr::PATH.spec_code() || k == Attr::UUID.spec_code() || k
            == Attr::CTRANSID.spec_code() || k == Attr::CLONE_CTRANSID.spec_code() || k
            == Attr::CLONE_UUID.spec_code(),
        Some(Cmd::MKFILE) => k == Attr::PATH.spec_code(),
        Some(Cmd::MKDIR) => k == Attr::PATH.spec_code(),
        Some(Cmd::MKNOD) => k == Attr::PATH.spec_code() || k == Attr::MODE.spec_code() || k
            == Attr::RDEV.spec_code(),
        Some(Cmd::MKFIFO) => k == Attr::PATH.spec_code(),
        Some(Cmd::MKSOCK) => k == Attr::PATH.spec_code(),
        Some(Cmd::SYMLINK) => k == Attr::PATH.spec_code() || k == Attr::PATH_LINK.spec_code(),
        Some(Cmd::RENAME) => k == Attr::PATH.spec_code() || k == Attr::PATH_TO.spec_code(),
        Some(Cmd::LINK) => k == Attr::PATH.spec_code() || k == Attr::PATH_LINK.spec_code(),
        Some(Cmd::UNLINK) => k == Attr::PATH.spec_code(),
        Some(Cmd::RMDIR) => k == Attr::PATH.spec_code(),
        Some(Cmd::WRITE) => k == Attr::PATH.spec_code() || k == Attr::FILE_OFFSET.spec_code() || k
            == Attr::DATA.spec_code(),
        Some(Cmd::CLONE) => k == Attr::PATH.spec_code() || k == Attr::FILE_OFFSET.spec_code() || k
            == Attr::CLONE_LEN.spec_code() || k == Attr::CLONE_UUID.spec_code() || k
            == Attr::CLONE_CTRANSID.spec_code() || k == Attr::CLONE_PATH.spec_code() || k
            == Attr::CLONE_OFFSET.spec_code(),
        Some(Cmd::SET_XATTR) => k == Attr::PATH.spec_code() || k == Attr::XATTR_NAME.spec_code()
            || k == Attr::XATTR_DATA.spec_code(),
        Some(Cmd::REMOVE_XATTR) => k == Attr::PATH.spec_code() || k
            == Attr::XATTR_NAME.spec_code(),
        Some(Cmd::TRUNCATE) => k == Attr::PATH.spec_code() || k == Attr::SIZE.spec_code(),
        Some(Cmd::CHMOD) => k == Attr::PATH.spec_code() || k == Attr::MODE.spec_code(),
        Some(Cmd::CHOWN) => k == Attr::PATH.spec_code() || k == Attr::UID.spec_code() || k
            == Attr::GID.spec_code(),
        Some(Cmd::UTIMES) => k == Attr::PATH.spec_code() || k == Attr::ATIME.spec_code() || k
            == Attr::MTIME.spec_code() || k == Attr::CTIME.spec_code(),
        Some(Cmd::UPDATE_EXTENT) => k == Attr::PATH.spec_code() || k
            == Attr::FILE_OFFSET.spec_code() || k == Attr::SIZE.spec_code(),
        _ => false,
    }
}

/// A known opcode never resolves without its mandatory attributes: omit any
/// one of them and resolution fails rather than substitute a default.
pub proof fn lemma_missing_mandatory_key_fails(u: RawCommandModel, k: u16)
    requires
        mandatory_key(u.header.cmd, k),
        sget(u.entries, k) is None,
    ensures
        spec_parse_command(u) is Err,
{
}

} // verus!
