//! The PE-parsing boundary.
//!
//! Locating sections, headers and the debug-directory table inside a PE
//! image is delegated to the `exe` crate. The library only needs one fact
//! from it: the debug directory's raw-data file offset. Everything at and
//! after that offset is decoded by this crate's own verified code.

use vstd::prelude::*;

verus! {

use crate::codeview::u32_le;

#[verifier::external_type_specification]
#[verifier::external_body]
pub struct ExVecPE(exe::pe::VecPE);

/// The largest image handed to the PE parser. The cap keeps the parser's
/// own header-offset sums, which it computes in 32 bits, away from the
/// 32-bit limit; anything larger is treated as malformed and skipped.
pub const MAX_PARSE_LEN: usize = 0xFFFC0000;

/// The two-byte little-endian value at an offset of the image.
pub open spec fn read_u16(image: Seq<u8>, off: int) -> int
    recommends
        0 <= off,
        off + 2 <= image.len(),
{
    image[off] + image[off + 1] * 0x100
}

/// The four-byte little-endian value at an offset of the image.
pub open spec fn read_u32(image: Seq<u8>, off: int) -> int
    recommends
        0 <= off,
        off + 4 <= image.len(),
{
    u32_le(image.subrange(off, off + 4)) as int
}

/// An image claims a DOS header: it is at least 64 bytes and starts with
/// the `MZ` signature. Only then does the parser read further headers.
pub open spec fn dos_header_present(image: Seq<u8>) -> bool {
    &&& image.len() >= 64
    &&& image[0] == 0x4D
    &&& image[1] == 0x5A
}

/// The sums the parser forms from one section header, each of which must
/// stay within 32 bits: the section's virtual end (`virtual_address +
/// virtual_size`), the raw offset of an address inside it (at most
/// `pointer_to_raw_data + virtual_size`), and its raw end
/// (`pointer_to_raw_data + size_of_raw_data`).
pub open spec fn section_sums_fit(image: Seq<u8>, s: int) -> bool {
    &&& read_u32(image, s + 12) + read_u32(image, s + 8) <= 0xFFFFFFFF
    &&& read_u32(image, s + 20) + read_u32(image, s + 8) <= 0xFFFFFFFF
    &&& read_u32(image, s + 20) + read_u32(image, s + 16) <= 0xFFFFFFFF
}

/// The sums of the section header at the given index of the table fit.
pub open spec fn nth_section_fits(image: Seq<u8>, sto: int, i: int) -> bool {
    section_sums_fit(image, sto + i * 40)
}

/// Every section header the parser could walk keeps its sums within 32
/// bits. The walk is reached only through a readable DOS header, NT
/// headers at `e_lfanew`, and a section table inside the image, so the
/// demand is conditioned the same way.
pub open spec fn sections_arith_safe(image: Seq<u8>) -> bool {
    let lfanew = read_u32(image, 0x3C);
    lfanew + 120 <= image.len() ==> {
        let nsec = read_u16(image, lfanew + 6);
        let sto = lfanew + 24 + read_u16(image, lfanew + 20);
        (sto < image.len() && sto + nsec * 40 <= image.len()) ==> forall|i: int|
            0 <= i < nsec ==> nth_section_fits(image, sto, i)
    }
}

/// The parser's offset arithmetic cannot leave 32 bits on this image, so
/// its debug-directory parse returns a result instead of overflowing.
/// An image that fails this test is treated as malformed and skipped; a
/// well-formed binary always passes it.
pub open spec fn parse_arith_safe(image: Seq<u8>) -> bool {
    &&& image.len() <= MAX_PARSE_LEN
    &&& (dos_header_present(image) ==> sections_arith_safe(image))
}

/// The two-byte little-endian value at an offset.
fn get_u16(image: &[u8], off: usize) -> (r: u16)
    requires
        off + 2 <= image@.len(),
    ensures
        r as int == read_u16(image@, off as int),
{
    image[off] as u16 + image[off + 1] as u16 * 0x100
}

/// The four-byte little-endian value at an offset.
fn get_u32(image: &[u8], off: usize) -> (r: u32)
    requires
        off + 4 <= image@.len(),
    ensures
        r as int == read_u32(image@, off as int),
{
    let r = image[off] as u32 + (image[off + 1] as u32) * 0x100 + (image[off + 2] as u32)
        * 0x10000 + (image[off + 3] as u32) * 0x1000000;
    proof {
        assert(r as int == u32_le(image@.subrange(off as int, off + 4)) as int);
    }
    r
}

/// Decide [`parse_arith_safe`] for an image before handing it to the
/// parser.
pub fn check_parse_arith(image: &[u8]) -> (r: bool)
    ensures
        r == parse_arith_safe(image@),
{
    let n = image.len();
    if n > MAX_PARSE_LEN {
        return false;
    }
    if n < 64 || image[0] != 0x4D || image[1] != 0x5A {
        return true;
    }
    let lfanew = get_u32(image, 0x3C) as u64;
    if lfanew + 120 > n as u64 {
        return true;
    }
    let nsec = get_u16(image, lfanew as usize + 6) as u64;
    let sto = lfanew + 24 + get_u16(image, lfanew as usize + 20) as u64;
    if !(sto < n as u64 && sto + nsec * 40 <= n as u64) {
        return true;
    }
    let mut i: u64 = 0;
    while i < nsec
        invariant
            i <= nsec,
            n == image@.len(),
            n <= MAX_PARSE_LEN,
            dos_header_present(image@),
            lfanew as int == read_u32(image@, 0x3C),
            lfanew + 120 <= n,
            nsec as int == read_u16(image@, lfanew as int + 6),
            sto as int == lfanew + 24 + read_u16(image@, lfanew as int + 20),
            sto < n,
            sto + nsec * 40 <= n,
            forall|j: int| 0 <= j < i ==> nth_section_fits(image@, sto as int, j),
        decreases nsec - i,
    {
        let s = (sto + i * 40) as usize;
        let virtual_size = get_u32(image, s + 8) as u64;
        let virtual_address = get_u32(image, s + 12) as u64;
        let size_of_raw_data = get_u32(image, s + 16) as u64;
        let pointer_to_raw_data = get_u32(image, s + 20) as u64;
        if virtual_address + virtual_size > 0xFFFFFFFF || pointer_to_raw_data + virtual_size
            > 0xFFFFFFFF || pointer_to_raw_data + size_of_raw_data > 0xFFFFFFFF {
            proof {
                assert(!nth_section_fits(image@, sto as int, i as int));
            }
            return false;
        }
        proof {
            assert(nth_section_fits(image@, sto as int, i as int));
        }
        i = i + 1;
    }
    true
}

/// The bytes a `VecPE`'s backing buffer holds.
pub uninterp spec fn pe_buffer(pe: exe::pe::VecPE) -> Seq<u8>;

/// Whether a `VecPE` was made as a disk image rather than a loaded memory
/// image.
pub uninterp spec fn pe_is_disk(pe: exe::pe::VecPE) -> bool;

/// The debug-directory raw-data file offset the `exe` crate reports for a
/// disk image with the given bytes; `None` when the bytes do not parse as a
/// PE or carry no debug directory.
pub uninterp spec fn disk_debug_offset(image: Seq<u8>) -> Option<u32>;

/// Relies on `exe::pe::VecPE::from_disk_data`: it copies the given bytes
/// into the backing buffer and marks the image as a disk image.
#[verifier::external_body]
pub(crate) fn pe_from_bytes(data: &[u8]) -> (pe: exe::pe::VecPE)
    ensures
        pe_buffer(pe) == data@,
        pe_is_disk(pe),
{
    exe::pe::VecPE::from_disk_data(data)
}

/// Relies on `exe::headers::ImageDebugDirectory::parse`: it reads the debug
/// entry of the image's data-directory table and the record it points at,
/// a function of the buffer bytes alone for a disk image, and fails on
/// images without a valid debug directory. The parse adds section-header
/// fields in 32 bits with no overflow check, so it is only called on
/// images that [`parse_arith_safe`] admits, on which every such sum fits.
#[verifier::external_body]
pub(crate) fn debug_directory_offset(pe: &exe::pe::VecPE) -> (r: Option<u32>)
    requires
        parse_arith_safe(pe_buffer(*pe)),
    ensures
        pe_is_disk(*pe) ==> r == disk_debug_offset(pe_buffer(*pe)),
{
    match exe::headers::ImageDebugDirectory::parse(pe) {
        Ok(dir) => Some(dir.pointer_to_raw_data.0),
        Err(_) => None,
    }
}

} // verus!
