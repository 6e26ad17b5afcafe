//! A Windows installation tree and the identifiers of its binaries.

use vstd::prelude::*;

verus! {

use vstd::utf8::encode_utf8;
use crate::pe::pe_from_bytes;
use crate::pe::debug_directory_offset;
use crate::pe::disk_debug_offset;
use crate::pe::parse_arith_safe;
use crate::pe::check_parse_arith;
use crate::codeview::record_meta;
use crate::codeview::parse_debug_record;
use crate::filter::name_allowed;
use crate::filter::is_native_binary_name;

/// A Windows installation, known by the path of its root directory.
pub struct Windows {
    pub path: String,
}

/// One directory entry handed to the extractor: the entry's file name and
/// the file's bytes.
pub struct FileEntry {
    pub name: Vec<u8>,
    pub data: Vec<u8>,
}

/// The debug identity of one binary: the PDB file's base name, its GUID in
/// symbol-server form, and the linker's revision counter.
#[derive(Debug)]
pub struct PdbMeta {
    pub name: String,
    pub guid: String,
    pub age: u32,
}

/// A well-formed identifier: the name is at least four bytes long and the
/// GUID is exactly 32 characters.
pub open spec fn valid_meta(m: PdbMeta) -> bool {
    &&& encode_utf8(m.name@).len() >= 4
    &&& m.guid@.len() == 32
}

/// What a PdbMeta says, as a plain triple of name, GUID and age.
pub open spec fn meta_view(m: PdbMeta) -> (Seq<char>, Seq<char>, u32) {
    (m.name@, m.guid@, m.age)
}

/// What one binary's bytes identify: the record at the debug directory's
/// raw-data offset, when the image has a readable one. An image whose
/// header sums would overflow the parser's 32-bit offset arithmetic is
/// malformed and identifies nothing.
pub open spec fn image_meta(image: Seq<u8>) -> Option<(Seq<char>, Seq<char>, u32)> {
    if !parse_arith_safe(image) {
        None
    } else {
        match disk_debug_offset(image) {
            Some(off) => record_meta(image, off as int),
            None => None,
        }
    }
}

/// The identifiers that a list of binary images yields, in order, images
/// without one skipped.
pub open spec fn metas_of_images(images: Seq<Seq<u8>>) -> Seq<(Seq<char>, Seq<char>, u32)>
    decreases images.len(),
{
    if images.len() == 0 {
        Seq::empty()
    } else {
        let rest = metas_of_images(images.drop_last());
        match image_meta(images.last()) {
            Some(m) => rest.push(m),
            None => rest,
        }
    }
}

/// The identifiers that a directory's entries yield, in order: entries
/// whose name fails the extension filter are not opened, and binaries
/// without a readable record are skipped.
pub open spec fn metas_of_entries(entries: Seq<FileEntry>) -> Seq<(Seq<char>, Seq<char>, u32)>
    decreases entries.len(),
{
    if entries.len() == 0 {
        Seq::empty()
    } else {
        let rest = metas_of_entries(entries.drop_last());
        let e = entries.last();
        if name_allowed(e.name@) {
            match image_meta(e.data@) {
                Some(m) => rest.push(m),
                None => rest,
            }
        } else {
            rest
        }
    }
}

impl Windows {
    /// Remember the root directory of the installation.
    pub fn new(path: String) -> (r: Windows)
        ensures
            r.path@ == path@,
    {
        Windows { path }
    }

    /// The root directory this installation was created with.
    pub fn get_path(&self) -> (r: &String)
        ensures
            r@ == self.path@,
    {
        &self.path
    }

    /// Extract the debug identifier of one binary image. A file that is not
    /// a PE, lacks a debug directory, carries a malformed record, or whose
    /// headers would overflow the parser's offset arithmetic yields nothing
    /// and is simply skipped.
    pub fn get_hash_and_pdb_name(&self, image: &Vec<u8>) -> (r: Option<PdbMeta>)
        ensures
            r is Some <==> image_meta(image@) is Some,
            r matches Some(m) ==> Some(meta_view(m)) == image_meta(image@),
            r matches Some(m) ==> valid_meta(m),
    {
        if !check_parse_arith(image.as_slice()) {
            return None;
        }
        let pe = pe_from_bytes(image.as_slice());
        let off = match debug_directory_offset(&pe) {
            Some(o) => o,
            None => {
                return None;
            },
        };
        parse_debug_record(image.as_slice(), off as usize)
    }

    /// Extract the debug identifiers of many binary images, in order,
    /// skipping images that yield none.
    pub fn get_hash_and_pdb_names(&self, images: &Vec<Vec<u8>>) -> (r: Vec<PdbMeta>)
        ensures
            r@.map_values(|m: PdbMeta| meta_view(m)) == metas_of_images(
                images@.map_values(|v: Vec<u8>| v@),
            ),
            forall|i: int| 0 <= i < r@.len() ==> valid_meta(#[trigger] r@[i]),
    {
        let ghost views = images@.map_values(|v: Vec<u8>| v@);
        let mut out: Vec<PdbMeta> = Vec::new();
        let mut i: usize = 0;
        while i < images.len()
            invariant
                i <= images@.len(),
                views == images@.map_values(|v: Vec<u8>| v@),
                out@.map_values(|m: PdbMeta| meta_view(m)) == metas_of_images(
                    views.subrange(0, i as int),
                ),
                forall|k: int| 0 <= k < out@.len() ==> valid_meta(#[trigger] out@[k]),
            decreases images@.len() - i,
        {
            match self.get_hash_and_pdb_name(&images[i]) {
                Some(m) => {
                    out.push(m);
                },
                None => {},
            }
            i = i + 1;
            proof {
                let cur = views.subrange(0, i as int);
                assert(cur.drop_last() =~= views.subrange(0, i - 1));
                assert(cur.last() == images@[i - 1]@);
                assert(out@.map_values(|m: PdbMeta| meta_view(m)) =~= metas_of_images(cur));
            }
        }
        proof {
            assert(views.subrange(0, views.len() as int) =~= views);
        }
        out
    }

    /// The identifiers of every native binary among a directory's entries:
    /// an entry is opened only when its name passes the extension filter,
    /// and a binary without a readable record is skipped.
    pub fn fetch_system32_pdbs(&self, entries: &Vec<FileEntry>) -> (r: Vec<PdbMeta>)
        ensures
            r@.map_values(|m: PdbMeta| meta_view(m)) == metas_of_entries(entries@),
            forall|i: int| 0 <= i < r@.len() ==> valid_meta(#[trigger] r@[i]),
    {
        let mut out: Vec<PdbMeta> = Vec::new();
        let mut i: usize = 0;
        while i < entries.len()
            invariant
                i <= entries@.len(),
                out@.map_values(|m: PdbMeta| meta_view(m)) == metas_of_entries(
                    entries@.subrange(0, i as int),
                ),
                forall|k: int| 0 <= k < out@.len() ==> valid_meta(#[trigger] out@[k]),
            decreases entries@.len() - i,
        {
            let e = &entries[i];
            if is_native_binary_name(e.name.as_slice()) {
                match self.get_hash_and_pdb_name(&e.data) {
                    Some(m) => {
                        out.push(m);
                    },
                    None => {},
                }
            }
            i = i + 1;
            proof {
                let cur = entries@.subrange(0, i as int);
                assert(cur.drop_last() =~= entries@.subrange(0, i - 1));
                assert(cur.last() == entries@[i - 1]);
                assert(out@.map_values(|m: PdbMeta| meta_view(m)) =~= metas_of_entries(cur));
            }
        }
        proof {
            assert(entries@.subrange(0, entries@.len() as int) =~= entries@);
        }
        out
    }
}

} // verus!
