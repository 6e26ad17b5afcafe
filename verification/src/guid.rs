//! The symbol-server form of a debug GUID.
//!
//! The symbol server addresses a PDB by the 32 upper-case hexadecimal
//! characters of its GUID, taken in a specific byte order: the three
//! little-endian header fields of the raw GUID are each reversed and the
//! trailing eight bytes are kept as stored.

use vstd::prelude::*;

verus! {

use crate::text::utf8_to_string;
use crate::text::lemma_ascii_decode;

/// ASCII code of the upper-case hexadecimal digit of a value below 16.
pub open spec fn hex_digit(v: u8) -> u8
    recommends
        v < 16,
{
    if v < 10 {
        (0x30 + v) as u8
    } else {
        (0x37 + v) as u8
    }
}

/// Upper-case hexadecimal ASCII bytes of a byte sequence: two digits per
/// byte, high nibble first.
pub open spec fn hex_bytes(bytes: Seq<u8>) -> Seq<u8> {
    Seq::new(
        bytes.len() * 2,
        |i: int| if i % 2 == 0 {
            hex_digit(bytes[i / 2] / 16)
        } else {
            hex_digit(bytes[i / 2] % 16)
        },
    )
}

/// The symbol-server byte order of a raw 16-byte GUID: the first three
/// little-endian fields are byte-reversed, the trailing 8 bytes stay put.
pub open spec fn reorder_guid(g: Seq<u8>) -> Seq<u8>
    recommends
        g.len() == 16,
{
    seq![
        g[3], g[2], g[1], g[0],
        g[5], g[4],
        g[7], g[6],
        g[8], g[9], g[10], g[11], g[12], g[13], g[14], g[15],
    ]
}

/// The 32 upper-case hexadecimal characters that a raw 16-byte GUID turns
/// into on the symbol server.
pub open spec fn guid_chars(g: Seq<u8>) -> Seq<char>
    recommends
        g.len() == 16,
{
    hex_bytes(reorder_guid(g)).map_values(|b: u8| b as char)
}

/// Every character of an encoded GUID is a digit or an upper-case letter
/// `A` to `F`, and a 16-byte GUID encodes to exactly 32 of them.
pub proof fn lemma_guid_chars_uppercase_hex(g: Seq<u8>)
    requires
        g.len() == 16,
    ensures
        guid_chars(g).len() == 32,
        forall|i: int|
            0 <= i < 32 ==> (('0' <= #[trigger] guid_chars(g)[i] <= '9') || ('A' <= guid_chars(
                g,
            )[i] <= 'F')),
{
    let hb = hex_bytes(reorder_guid(g));
    assert forall|i: int|
        0 <= i < 32 implies (('0' <= #[trigger] guid_chars(g)[i] <= '9') || ('A' <= guid_chars(
        g,
    )[i] <= 'F')) by {
        assert(guid_chars(g)[i] == hb[i] as char);
        let v = if i % 2 == 0 {
            reorder_guid(g)[i / 2] / 16
        } else {
            reorder_guid(g)[i / 2] % 16
        };
        assert(hb[i] == hex_digit(v));
        assert(v < 16);
    }
}

/// Append the two upper-case hexadecimal digits of one byte.
fn push_hex_byte(out: &mut Vec<u8>, b: u8)
    ensures
        final(out)@ == old(out)@ + seq![hex_digit(b / 16), hex_digit(b % 16)],
{
    let hi = b / 16;
    let lo = b % 16;
    out.push(if hi < 10 { 0x30 + hi } else { 0x37 + hi });
    out.push(if lo < 10 { 0x30 + lo } else { 0x37 + lo });
}

/// Encode a raw 16-byte GUID as the 32-character upper-case hexadecimal
/// string used in symbol-server paths.
pub fn encode_guid(g: &[u8]) -> (r: String)
    requires
        g@.len() == 16,
    ensures
        r@ == guid_chars(g@),
        r@.len() == 32,
{
    let mut reordered: Vec<u8> = Vec::new();
    reordered.push(g[3]);
    reordered.push(g[2]);
    reordered.push(g[1]);
    reordered.push(g[0]);
    reordered.push(g[5]);
    reordered.push(g[4]);
    reordered.push(g[7]);
    reordered.push(g[6]);
    reordered.push(g[8]);
    reordered.push(g[9]);
    reordered.push(g[10]);
    reordered.push(g[11]);
    reordered.push(g[12]);
    reordered.push(g[13]);
    reordered.push(g[14]);
    reordered.push(g[15]);
    proof {
        assert(reordered@ =~= reorder_guid(g@));
    }
    let mut out: Vec<u8> = Vec::new();
    let mut i: usize = 0;
    while i < 16
        invariant
            reordered@ == reorder_guid(g@),
            reordered@.len() == 16,
            i <= 16,
            out@ =~= hex_bytes(reordered@).subrange(0, 2 * i as int),
        decreases 16 - i,
    {
        push_hex_byte(&mut out, reordered[i]);
        i = i + 1;
        proof {
            assert(out@ =~= hex_bytes(reordered@).subrange(0, 2 * i as int));
        }
    }
    proof {
        assert(out@ =~= hex_bytes(reorder_guid(g@)));
        assert(forall|j: int| 0 <= j < out@.len() ==> out@[j] < 0x80);
        lemma_ascii_decode(out@);
    }
    match utf8_to_string(out) {
        Some(s) => s,
        None => {
            proof {
                assert(false);
            }
            String::new()
        },
    }
}

} // verus!
