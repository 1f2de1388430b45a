//! The tag-length-value layer: raw attribute entries, their byte-exact
//! framing, and the typed getters over a decoded attribute bag.

use vstd::prelude::*;
use vstd::bytes::{spec_u16_from_le_bytes, spec_u32_from_le_bytes, spec_u64_from_le_bytes};
use vstd::bytes::{spec_u16_to_le_bytes, u16_from_le_bytes, u32_from_le_bytes, u64_from_le_bytes};
use vstd::slice::{slice_subrange, slice_to_vec};
use vstd::utf8::{valid_utf8, decode_utf8};
use crate::Error;
use crate::definitions::Attr;

verus! {

/// Width in bytes of an [`Uuid`].
pub const UUID_SIZE: usize = 16;

/// An opaque 16-byte identifier, naming a subvolume or snapshot.
#[derive(Clone, Debug, Copy, Default)]
pub struct Uuid {
    pub data: [u8; UUID_SIZE],
}

impl View for Uuid {
    type V = Seq<u8>;

    open spec fn view(&self) -> Seq<u8> {
        self.data@
    }
}

/// A timestamp: whole seconds and a nanosecond remainder.
#[derive(Clone, Debug, Copy, Default, PartialEq, Eq, Structural)]
pub struct Timespec {
    pub sec: u64,
    pub nsec: u32,
}

/// One raw attribute: a 16-bit key and its value bytes.
#[derive(Clone, Debug)]
pub struct TLVEntry {
    pub key: u16,
    pub value: Vec<u8>,
}

/// The mathematical shadow of a [`TLVEntry`].
pub ghost struct TLVEntryModel {
    pub key: u16,
    pub value: Seq<u8>,
}

impl View for TLVEntry {
    type V = TLVEntryModel;

    open spec fn view(&self) -> TLVEntryModel {
        TLVEntryModel { key: self.key, value: self.value@ }
    }
}

/// An ordered bag of raw attributes.  Lookup by key returns the first
/// matching entry; duplicate keys resolve to the first seen, by design.
#[derive(Clone, Debug)]
pub struct TLVData {
    pub entries: Vec<TLVEntry>,
}

/// The models of a sequence of raw entries, in order.
pub open spec fn entries_view(entries: Seq<TLVEntry>) -> Seq<TLVEntryModel> {
    Seq::new(entries.len(), |i: int| entries[i]@)
}

impl View for TLVData {
    type V = Seq<TLVEntryModel>;

    open spec fn view(&self) -> Seq<TLVEntryModel> {
        entries_view(self.entries@)
    }
}

/// First-match lookup by key: the value of the first entry with `key`, or
/// `None` if no entry has it.
pub open spec fn sget(es: Seq<TLVEntryModel>, key: u16) -> Option<Seq<u8>>
    decreases es.len(),
{
    if es.len() == 0 {
        None
    } else if es[0].key == key {
        Some(es[0].value)
    } else {
        sget(es.drop_first(), key)
    }
}

/// Lookup as the raw getter reports it: the value bytes, or the error naming
/// the absent key.
pub open spec fn sget_raw(es: Seq<TLVEntryModel>, key: u16) -> Result<Seq<u8>, Error> {
    match sget(es, key) {
        Some(v) => Ok(v),
        None => Err(Error::MissingAttribute(key)),
    }
}

/// A value decoded as `u8`: its first byte.  Extra trailing bytes are
/// tolerated; a shorter value is a decode error.
pub open spec fn sget_u8(es: Seq<TLVEntryModel>, key: u16) -> Result<u8, Error> {
    match sget(es, key) {
        None => Err(Error::MissingAttribute(key)),
        Some(v) => if v.len() < 1 {
            Err(Error::DecodeError)
        } else {
            Ok(v[0])
        },
    }
}

/// A value decoded as a little-endian `u16` from its first two bytes.
pub open spec fn sget_u16(es: Seq<TLVEntryModel>, key: u16) -> Result<u16, Error> {
    match sget(es, key) {
        None => Err(Error::MissingAttribute(key)),
        Some(v) => if v.len() < 2 {
            Err(Error::DecodeError)
        } else {
            Ok(spec_u16_from_le_bytes(v.subrange(0, 2)))
        },
    }
}

/// A value decoded as a little-endian `u32` from its first four bytes.
pub open spec fn sget_u32(es: Seq<TLVEntryModel>, key: u16) -> Result<u32, Error> {
    match sget(es, key) {
        None => Err(Error::MissingAttribute(key)),
        Some(v) => if v.len() < 4 {
            Err(Error::DecodeError)
        } else {
            Ok(spec_u32_from_le_bytes(v.subrange(0, 4)))
        },
    }
}

/// A value decoded as a little-endian `u64` from its first eight bytes.
pub open spec fn sget_u64(es: Seq<TLVEntryModel>, key: u16) -> Result<u64, Error> {
    match sget(es, key) {
        None => Err(Error::MissingAttribute(key)),
        Some(v) => if v.len() < 8 {
            Err(Error::DecodeError)
        } else {
            Ok(spec_u64_from_le_bytes(v.subrange(0, 8)))
        },
    }
}

/// A value decoded as UTF-8 text.  Invalid UTF-8 is a decode error, never a
/// silent substitution.
pub open spec fn sget_string(es: Seq<TLVEntryModel>, key: u16) -> Result<Seq<char>, Error> {
    match sget(es, key) {
        None => Err(Error::MissingAttribute(key)),
        Some(v) => if valid_utf8(v) {
            Ok(decode_utf8(v))
        } else {
            Err(Error::DecodeError)
        },
    }
}

/// A value decoded as an identifier: its first sixteen bytes.
pub open spec fn sget_uuid(es: Seq<TLVEntryModel>, key: u16) -> Result<Seq<u8>, Error> {
    match sget(es, key) {
        None => Err(Error::MissingAttribute(key)),
        Some(v) => if v.len() < 16 {
            Err(Error::DecodeError)
        } else {
            Ok(v.subrange(0, 16))
        },
    }
}

/// A value decoded as a timestamp: seconds from its first eight bytes, then
/// nanoseconds from the next four.
pub open spec fn sget_timespec(es: Seq<TLVEntryModel>, key: u16) -> Result<Timespec, Error> {
    match sget(es, key) {
        None => Err(Error::MissingAttribute(key)),
        Some(v) => if v.len() < 12 {
            Err(Error::DecodeError)
        } else {
            Ok(Timespec {
                sec: spec_u64_from_le_bytes(v.subrange(0, 8)),
                nsec: spec_u32_from_le_bytes(v.subrange(8, 12)),
            })
        },
    }
}

/// The bytes one entry occupies on the wire: key, value length, value.
pub open spec fn encode_entry(e: TLVEntryModel) -> Seq<u8> {
    spec_u16_to_le_bytes(e.key) + spec_u16_to_le_bytes(e.value.len() as u16) + e.value
}

/// The bytes a whole bag occupies on the wire, in order.
pub open spec fn encode_entries(es: Seq<TLVEntryModel>) -> Seq<u8>
    decreases es.len(),
{
    if es.len() == 0 {
        Seq::<u8>::empty()
    } else {
        encode_entry(es[0]) + encode_entries(es.drop_first())
    }
}

/// The framing account of a bag: each entry costs four bytes of overhead
/// plus its value's length.
pub open spec fn entries_wire_len(es: Seq<TLVEntryModel>) -> int
    decreases es.len(),
{
    if es.len() == 0 {
        0
    } else {
        4 + es[0].value.len() + entries_wire_len(es.drop_first())
    }
}

/// An entry can be framed only if its value length fits the 16-bit length
/// field.
pub open spec fn entries_fit(es: Seq<TLVEntryModel>) -> bool {
    forall|i: int| 0 <= i < es.len() ==> (#[trigger] es[i].value.len()) <= u16::MAX
}

/// The TLV decode of a byte region of exactly the declared body length:
/// `None` when the region cannot be split into entries whose framing sums to
/// exactly the region's length.
pub open spec fn parse_entries(b: Seq<u8>) -> Option<Seq<TLVEntryModel>>
    decreases b.len(),
{
    if b.len() == 0 {
        Some(Seq::<TLVEntryModel>::empty())
    } else if b.len() < 4 {
        None
    } else {
        let key = spec_u16_from_le_bytes(b.subrange(0, 2));
        let vlen = spec_u16_from_le_bytes(b.subrange(2, 4)) as int;
        if 4 + vlen > b.len() {
            None
        } else {
            match parse_entries(b.subrange(4 + vlen, b.len() as int)) {
                Some(rest) => Some(
                    seq![TLVEntryModel { key: key, value: b.subrange(4, 4 + vlen) }] + rest,
                ),
                None => None,
            }
        }
    }
}

/// Relies on `String::from_utf8`: it returns `Ok` exactly when the bytes are
/// valid UTF-8, and the string it returns decodes those bytes.
#[verifier::external_body]
fn string_from_utf8(v: Vec<u8>) -> (r: Option<String>)
    ensures
        r matches Some(s) ==> valid_utf8(v@) && s@ == decode_utf8(v@),
        r is None ==> !valid_utf8(v@),
{
    String::from_utf8(v).ok()
}

/// After `i` mismatching entries, the lookup's outcome is the lookup's
/// outcome on the remaining suffix.
proof fn lemma_sget_skip(es: Seq<TLVEntryModel>, key: u16, i: int)
    requires
        0 <= i <= es.len(),
        forall|j: int| 0 <= j < i ==> (#[trigger] es[j].key) != key,
    ensures
        sget(es, key) == sget(es.skip(i), key),
    decreases i,
{
    if i > 0 {
        assert(es[0].key != key);
        assert(es.drop_first() =~= es.skip(1));
        assert forall|j: int| 0 <= j < i - 1 implies (#[trigger] es.skip(1)[j].key) != key by {
            assert(es.skip(1)[j] == es[j + 1]);
        }
        lemma_sget_skip(es.skip(1), key, i - 1);
        assert(es.skip(1).skip(i - 1) =~= es.skip(i));
        assert(sget(es, key) == sget(es.drop_first(), key));
    } else {
        assert(es.skip(0) =~= es);
    }
}

impl TLVData {
    /// Look up a key, returning the first matching entry's value bytes, or a
    /// missing-attribute error naming the key.
    pub fn get(&self, key: u16) -> (r: Result<&Vec<u8>, Error>)
        ensures
            match r {
                Ok(v) => sget_raw(self@, key) == Ok::<Seq<u8>, Error>(v@),
                Err(e) => sget_raw(self@, key) == Err::<Seq<u8>, Error>(e),
            },
    {
        let n = self.entries.len();
        let mut i: usize = 0;
        while i < n
            invariant
                n == self.entries.len(),
                0 <= i <= n,
                forall|j: int| 0 <= j < i ==> (#[trigger] self@[j].key) != key,
            decreases n - i,
        {
            if self.entries[i].key == key {
                proof {
                    lemma_sget_skip(self@, key, i as int);
                    assert(self@.skip(i as int)[0] == self@[i as int]);
                }
                return Ok(&self.entries[i].value);
            }
            i += 1;
        }
        proof {
            lemma_sget_skip(self@, key, n as int);
            assert(self@.skip(n as int).len() == 0);
        }
        Err(Error::MissingAttribute(key))
    }

    /// The key's value decoded as `u8`: its first byte.
    pub fn get_u8(&self, key: u16) -> (r: Result<u8, Error>)
        ensures
            r == sget_u8(self@, key),
    {
        let v = match self.get(key) {
            Ok(v) => v,
            Err(e) => return Err(e),
        };
        if v.len() < 1 {
            return Err(Error::DecodeError);
        }
        Ok(v[0])
    }

    /// The key's value decoded as a little-endian `u16`.
    pub fn get_u16(&self, key: u16) -> (r: Result<u16, Error>)
        ensures
            r == sget_u16(self@, key),
    {
        let v = match self.get(key) {
            Ok(v) => v,
            Err(e) => return Err(e),
        };
        if v.len() < 2 {
            return Err(Error::DecodeError);
        }
        Ok(u16_from_le_bytes(slice_subrange(v.as_slice(), 0, 2)))
    }

    /// The key's value decoded as a little-endian `u32`.
    pub fn get_u32(&self, key: u16) -> (r: Result<u32, Error>)
        ensures
            r == sget_u32(self@, key),
    {
        let v = match self.get(key) {
            Ok(v) => v,
            Err(e) => return Err(e),
        };
        if v.len() < 4 {
            return Err(Error::DecodeError);
        }
        Ok(u32_from_le_bytes(slice_subrange(v.as_slice(), 0, 4)))
    }

    /// The key's value decoded as a little-endian `u64`.
    pub fn get_u64(&self, key: u16) -> (r: Result<u64, Error>)
        ensures
            r == sget_u64(self@, key),
    {
        let v = match self.get(key) {
            Ok(v) => v,
            Err(e) => return Err(e),
        };
        if v.len() < 8 {
            return Err(Error::DecodeError);
        }
        Ok(u64_from_le_bytes(slice_subrange(v.as_slice(), 0, 8)))
    }

    /// The key's value decoded as UTF-8 text.
    pub fn get_string(&self, key: u16) -> (r: Result<String, Error>)
        ensures
            match r {
                Ok(s) => sget_string(self@, key) == Ok::<Seq<char>, Error>(s@),
                Err(e) => sget_string(self@, key) == Err::<Seq<char>, Error>(e),
            },
    {
        let v = match self.get(key) {
            Ok(v) => v,
            Err(e) => return Err(e),
        };
        let copy: Vec<u8> = slice_to_vec(v.as_slice());
        match string_from_utf8(copy) {
            Some(s) => Ok(s),
            None => Err(Error::DecodeError),
        }
    }

    /// The key's value decoded as a timestamp.
    pub fn get_timespec(&self, key: u16) -> (r: Result<Timespec, Error>)
        ensures
            r == sget_timespec(self@, key),
    {
        let v = match self.get(key) {
            Ok(v) => v,
            Err(e) => return Err(e),
        };
        if v.len() < 12 {
            return Err(Error::DecodeError);
        }
        let sec = u64_from_le_bytes(slice_subrange(v.as_slice(), 0, 8));
        let nsec = u32_from_le_bytes(slice_subrange(v.as_slice(), 8, 12));
        Ok(Timespec { sec, nsec })
    }

    /// The key's value decoded as an identifier.
    pub fn get_uuid(&self, key: u16) -> (r: Result<Uuid, Error>)
        ensures
            match r {
                Ok(u) => sget_uuid(self@, key) == Ok::<Seq<u8>, Error>(u@),
                Err(e) => sget_uuid(self@, key) == Err::<Seq<u8>, Error>(e),
            },
    {
        let v = match self.get(key) {
            Ok(v) => v,
            Err(e) => return Err(e),
        };
        if v.len() < UUID_SIZE {
            return Err(Error::DecodeError);
        }
        let mut data = [0u8; UUID_SIZE];
        let mut i: usize = 0;
        while i < UUID_SIZE
            invariant
                0 <= i <= 16,
                v@.len() >= 16,
                data@.len() == 16,
                forall|j: int| 0 <= j < i ==> data@[j] == v@[j],
            decreases 16 - i,
        {
            data[i] = v[i];
            i += 1;
        }
        proof {
            assert(data@ =~= v@.subrange(0, 16));
        }
        Ok(Uuid { data })
    }

    /// The identifier attribute.
    pub fn uuid(&self) -> (r: Result<Uuid, Error>)
        ensures
            match r {
                Ok(u) => sget_uuid(self@, Attr::UUID.spec_code()) == Ok::<Seq<u8>, Error>(u@),
                Err(e) => sget_uuid(self@, Attr::UUID.spec_code()) == Err::<Seq<u8>, Error>(e),
            },
    {
        self.get_uuid(Attr::UUID.code())
    }

    /// The clone-source identifier attribute.
    pub fn clone_uuid(&self) -> (r: Result<Uuid, Error>)
        ensures
            match r {
                Ok(u) => sget_uuid(self@, Attr::CLONE_UUID.spec_code()) == Ok::<Seq<u8>, Error>(u@),
                Err(e) => sget_uuid(self@, Attr::CLONE_UUID.spec_code()) == Err::<Seq<u8>, Error>(e),
            },
    {
        self.get_uuid(Attr::CLONE_UUID.code())
    }

    /// The path attribute.
    pub fn path(&self) -> (r: Result<String, Error>)
        ensures
            match r {
                Ok(s) => sget_string(self@, Attr::PATH.spec_code()) == Ok::<Seq<char>, Error>(s@),
                Err(e) => sget_string(self@, Attr::PATH.spec_code()) == Err::<Seq<char>, Error>(e),
            },
    {
        self.get_string(Attr::PATH.code())
    }

    /// The clone-source path attribute.
    pub fn clone_path(&self) -> (r: Result<String, Error>)
        ensures
            match r {
                Ok(s) => sget_string(self@, Attr::CLONE_PATH.spec_code()) == Ok::<Seq<char>, Error>(s@),
                Err(e) => sget_string(self@, Attr::CLONE_PATH.spec_code()) == Err::<Seq<char>, Error>(e),
            },
    {
        self.get_string(Attr::CLONE_PATH.code())
    }

    /// The link-target path attribute.
    pub fn path_link(&self) -> (r: Result<String, Error>)
        ensures
            match r {
                Ok(s) => sget_string(self@, Attr::PATH_LINK.spec_code()) == Ok::<Seq<char>, Error>(s@),
                Err(e) => sget_string(self@, Attr::PATH_LINK.spec_code()) == Err::<Seq<char>, Error>(e),
            },
    {
        self.get_string(Attr::PATH_LINK.code())
    }

    /// The destination path attribute.
    pub fn path_to(&self) -> (r: Result<String, Error>)
        ensures
            match r {
                Ok(s) => sget_string(self@, Attr::PATH_TO.spec_code()) == Ok::<Seq<char>, Error>(s@),
                Err(e) => sget_string(self@, Attr::PATH_TO.spec_code()) == Err::<Seq<char>, Error>(e),
            },
    {
        self.get_string(Attr::PATH_TO.code())
    }

    /// The creation-transaction-id attribute.
    pub fn ctransid(&self) -> (r: Result<u64, Error>)
        ensures
            r == sget_u64(self@, Attr::CTRANSID.spec_code()),
    {
        self.get_u64(Attr::CTRANSID.code())
    }

    /// The clone-source creation-transaction-id attribute.
    pub fn clone_ctransid(&self) -> (r: Result<u64, Error>)
        ensures
            r == sget_u64(self@, Attr::CLONE_CTRANSID.spec_code()),
    {
        self.get_u64(Attr::CLONE_CTRANSID.code())
    }

    /// The file-offset attribute.
    pub fn file_offset(&self) -> (r: Result<u64, Error>)
        ensures
            r == sget_u64(self@, Attr::FILE_OFFSET.spec_code()),
    {
        self.get_u64(Attr::FILE_OFFSET.code())
    }

    /// The clone-source offset attribute.
    pub fn clone_offset(&self) -> (r: Result<u64, Error>)
        ensures
            r == sget_u64(self@, Attr::CLONE_OFFSET.spec_code()),
    {
        self.get_u64(Attr::CLONE_OFFSET.code())
    }

    /// The clone length attribute.
    pub fn clone_len(&self) -> (r: Result<u64, Error>)
        ensures
            r == sget_u64(self@, Attr::CLONE_LEN.spec_code()),
    {
        self.get_u64(Attr::CLONE_LEN.code())
    }

    /// The mode attribute.
    pub fn mode(&self) -> (r: Result<u64, Error>)
        ensures
            r == sget_u64(self@, Attr::MODE.spec_code()),
    {
        self.get_u64(Attr::MODE.code())
    }

    /// The owning-user attribute.
    pub fn uid(&self) -> (r: Result<u64, Error>)
        ensures
            r == sget_u64(self@, Attr::UID.spec_code()),
    {
        self.get_u64(Attr::UID.code())
    }

    /// The owning-group attribute.
    pub fn gid(&self) -> (r: Result<u64, Error>)
        ensures
            r == sget_u64(self@, Attr::GID.spec_code()),
    {
        self.get_u64(Attr::GID.code())
    }

    /// The device-number attribute.
    pub fn rdev(&self) -> (r: Result<u64, Error>)
        ensures
            r == sget_u64(self@, Attr::RDEV.spec_code()),
    {
        self.get_u64(Attr::RDEV.code())
    }

    /// The size attribute.
    pub fn size(&self) -> (r: Result<u64, Error>)
        ensures
            r == sget_u64(self@, Attr::SIZE.spec_code()),
    {
        self.get_u64(Attr::SIZE.code())
    }

    /// The raw file-data attribute.
    pub fn data(&self) -> (r: Result<&Vec<u8>, Error>)
        ensures
            match r {
                Ok(v) => sget_raw(self@, Attr::DATA.spec_code()) == Ok::<Seq<u8>, Error>(v@),
                Err(e) => sget_raw(self@, Attr::DATA.spec_code()) == Err::<Seq<u8>, Error>(e),
            },
    {
        self.get(Attr::DATA.code())
    }

    /// The raw extended-attribute-data attribute.
    pub fn xattr_data(&self) -> (r: Result<&Vec<u8>, Error>)
        ensures
            match r {
                Ok(v) => sget_raw(self@, Attr::XATTR_DATA.spec_code()) == Ok::<Seq<u8>, Error>(v@),
                Err(e) => sget_raw(self@, Attr::XATTR_DATA.spec_code()) == Err::<Seq<u8>, Error>(e),
            },
    {
        self.get(Attr::XATTR_DATA.code())
    }

    /// The extended-attribute-name attribute.
    pub fn xattr_name(&self) -> (r: Result<String, Error>)
        ensures
            match r {
                Ok(s) => sget_string(self@, Attr::XATTR_NAME.spec_code()) == Ok::<Seq<char>, Error>(s@),
                Err(e) => sget_string(self@, Attr::XATTR_NAME.spec_code()) == Err::<Seq<char>, Error>(e),
            },
    {
        self.get_string(Attr::XATTR_NAME.code())
    }

    /// The access-time attribute.
    pub fn atime(&self) -> (r: Result<Timespec, Error>)
        ensures
            r == sget_timespec(self@, Attr::ATIME.spec_code()),
    {
        self.get_timespec(Attr::ATIME.code())
    }

    /// The modification-time attribute.
    pub fn mtime(&self) -> (r: Result<Timespec, Error>)
        ensures
            r == sget_timespec(self@, Attr::MTIME.spec_code()),
    {
        self.get_timespec(Attr::MTIME.code())
    }

    /// The change-time attribute.
    pub fn ctime(&self) -> (r: Result<Timespec, Error>)
        ensures
            r == sget_timespec(self@, Attr::CTIME.spec_code()),
    {
        self.get_timespec(Attr::CTIME.code())
    }
}

} // verus!
