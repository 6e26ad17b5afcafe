//! The CodeView debug record.
//!
//! At the debug directory's raw-data offset a PE image holds one
//! fixed-layout record: a 4-byte signature, the raw 16-byte GUID, a
//! little-endian 32-bit age, and a zero-terminated name field of up to 255
//! bytes. This module decodes that record into a [`PdbMeta`].

use vstd::prelude::*;

verus! {

use vstd::utf8::valid_utf8;
use vstd::utf8::decode_utf8;
use vstd::utf8::encode_utf8;
use vstd::utf8::decode_utf8_encode_utf8;
use crate::text::utf8_to_string;
use crate::guid::guid_chars;
use crate::guid::encode_guid;
use crate::windows::PdbMeta;
use crate::windows::valid_meta;

/// Total size of the record: signature, GUID, age and the name field.
pub const RECORD_SIZE: usize = 279;

/// Names shorter than this mark a truncated or garbage record.
pub const MIN_PDB_NAME_LEN: usize = 4;

/// The name the record's zero-padded name field holds: the bytes before the
/// first zero, decoded as UTF-8. A field without a zero byte, or one whose
/// prefix is not valid UTF-8, holds no name.
pub open spec fn debug_name_chars(field: Seq<u8>) -> Option<Seq<char>> {
    match field.index_of_first(0u8) {
        Some(k) => if valid_utf8(field.take(k)) {
            Some(decode_utf8(field.take(k)))
        } else {
            None
        },
        None => None,
    }
}

/// Index of the first zero byte, if any.
fn find_first_zero(bytes: &[u8]) -> (r: Option<usize>)
    ensures
        r matches Some(i) ==> bytes@.index_of_first(0u8) == Some(i as int),
        r is None ==> bytes@.index_of_first(0u8) is None,
{
    let n = bytes.len();
    let mut i: usize = 0;
    while i < n
        invariant
            i <= n,
            n == bytes@.len(),
            forall|j: int| 0 <= j < i ==> bytes@[j] != 0,
        decreases n - i,
    {
        if bytes[i] == 0 {
            proof {
                bytes@.index_of_first_ensures(0u8);
            }
            return Some(i);
        }
        i = i + 1;
    }
    proof {
        bytes@.index_of_first_ensures(0u8);
    }
    None
}

/// Decode the record's name field: the bytes before the first zero, read as
/// UTF-8.
pub fn extract_debug_name(name: &[u8]) -> (r: Option<String>)
    ensures
        r is Some <==> debug_name_chars(name@) is Some,
        r matches Some(s) ==> Some(s@) == debug_name_chars(name@),
{
    match find_first_zero(name) {
        None => None,
        Some(k) => {
            let mut prefix: Vec<u8> = Vec::new();
            let mut j: usize = 0;
            proof {
                name@.index_of_first_ensures(0u8);
            }
            while j < k
                invariant
                    j <= k,
                    k < name@.len(),
                    prefix@ == name@.subrange(0, j as int),
                decreases k - j,
            {
                prefix.push(name[j]);
                j = j + 1;
                proof {
                    assert(prefix@ =~= name@.subrange(0, j as int));
                }
            }
            proof {
                assert(prefix@ == name@.take(k as int));
            }
            match utf8_to_string(prefix) {
                Some(s) => Some(s),
                None => None,
            }
        },
    }
}

/// A name field whose first zero byte stands at index `k` yields a name of
/// exactly `k` bytes.
pub proof fn lemma_name_length(field: Seq<u8>)
    requires
        debug_name_chars(field) is Some,
    ensures
        encode_utf8(debug_name_chars(field).unwrap()).len() == field.index_of_first(
            0u8,
        ).unwrap(),
{
    let k = field.index_of_first(0u8).unwrap();
    field.index_of_first_ensures(0u8);
    decode_utf8_encode_utf8(field.take(k));
}

/// The unsigned 32-bit value of four little-endian bytes.
pub open spec fn u32_le(b: Seq<u8>) -> u32
    recommends
        b.len() == 4,
{
    (b[0] + b[1] * 0x100 + b[2] * 0x10000 + b[3] * 0x1000000) as u32
}

/// The record fits inside the image at the given offset.
pub open spec fn record_fits(image: Seq<u8>, off: int) -> bool {
    0 <= off && off + RECORD_SIZE <= image.len()
}

/// The raw GUID stored in the record at the given offset.
pub open spec fn record_guid(image: Seq<u8>, off: int) -> Seq<u8> {
    image.subrange(off + 4, off + 20)
}

/// The age stored in the record at the given offset.
pub open spec fn record_age(image: Seq<u8>, off: int) -> u32 {
    u32_le(image.subrange(off + 20, off + 24))
}

/// The zero-padded name field of the record at the given offset.
pub open spec fn record_name_field(image: Seq<u8>, off: int) -> Seq<u8> {
    image.subrange(off + 24, off + RECORD_SIZE)
}

/// What the record at the given offset identifies: its name, the GUID's
/// symbol-server characters, and the age. A record that does not fit in the
/// image, has no usable name, or names fewer than four bytes identifies
/// nothing.
pub open spec fn record_meta(image: Seq<u8>, off: int) -> Option<(Seq<char>, Seq<char>, u32)> {
    if !record_fits(image, off) {
        None
    } else {
        let field = record_name_field(image, off);
        match field.index_of_first(0u8) {
            Some(k) => if k >= MIN_PDB_NAME_LEN && valid_utf8(field.take(k)) {
                Some(
                    (
                        decode_utf8(field.take(k)),
                        guid_chars(record_guid(image, off)),
                        record_age(image, off),
                    ),
                )
            } else {
                None
            },
            None => None,
        }
    }
}

/// Decode the CodeView record at the given file offset of a PE image. A
/// malformed record is no identifier, never an error: the caller skips the
/// file.
pub fn parse_debug_record(image: &[u8], offset: usize) -> (r: Option<PdbMeta>)
    ensures
        r is Some <==> record_meta(image@, offset as int) is Some,
        r matches Some(m) ==> Some((m.name@, m.guid@, m.age)) == record_meta(
            image@,
            offset as int,
        ),
        r matches Some(m) ==> valid_meta(m),
{
    let n = image.len();
    if n < RECORD_SIZE || offset > n - RECORD_SIZE {
        return None;
    }
    let mut field: Vec<u8> = Vec::new();
    let mut j: usize = 0;
    while j < 255
        invariant
            n == image@.len(),
            offset + RECORD_SIZE <= n,
            j <= 255,
            field@ == image@.subrange(offset + 24, offset + 24 + j),
        decreases 255 - j,
    {
        field.push(image[offset + 24 + j]);
        j = j + 1;
        proof {
            assert(field@ =~= image@.subrange(offset + 24, offset + 24 + j));
        }
    }
    proof {
        assert(field@ == record_name_field(image@, offset as int));
    }
    let name = match extract_debug_name(field.as_slice()) {
        Some(s) => s,
        None => {
            return None;
        },
    };
    proof {
        lemma_name_length(field@);
        field@.index_of_first_ensures(0u8);
    }
    if name.as_str().len() < MIN_PDB_NAME_LEN {
        return None;
    }
    let mut gb: Vec<u8> = Vec::new();
    gb.push(image[offset + 4]);
    gb.push(image[offset + 5]);
    gb.push(image[offset + 6]);
    gb.push(image[offset + 7]);
    gb.push(image[offset + 8]);
    gb.push(image[offset + 9]);
    gb.push(image[offset + 10]);
    gb.push(image[offset + 11]);
    gb.push(image[offset + 12]);
    gb.push(image[offset + 13]);
    gb.push(image[offset + 14]);
    gb.push(image[offset + 15]);
    gb.push(image[offset + 16]);
    gb.push(image[offset + 17]);
    gb.push(image[offset + 18]);
    gb.push(image[offset + 19]);
    proof {
        assert(gb@ =~= record_guid(image@, offset as int));
    }
    let guid = encode_guid(gb.as_slice());
    let age: u32 = image[offset + 20] as u32 + (image[offset + 21] as u32) * 0x100 + (image[
        offset + 22
    ] as u32) * 0x10000 + (image[offset + 23] as u32) * 0x1000000;
    proof {
        assert(age == record_age(image@, offset as int));
    }
    Some(PdbMeta { name, guid, age })
}

} // verus!
