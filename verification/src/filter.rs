//! The extension filter.
//!
//! Of a directory's entries only the native binaries are worth opening:
//! files whose extension, compared without regard to ASCII case, is one of
//! `dll`, `exe`, `sys`, `drv`, `cpl`, `mui` or `ocx`.

use vstd::prelude::*;

verus! {

/// The lower-case form of an ASCII byte.
pub open spec fn ascii_lower(b: u8) -> u8 {
    if 0x41 <= b <= 0x5A {
        (b + 0x20) as u8
    } else {
        b
    }
}

/// A byte sequence with every ASCII letter lowered.
pub open spec fn lower_bytes(s: Seq<u8>) -> Seq<u8> {
    s.map_values(|b: u8| ascii_lower(b))
}

/// The extension of a file name: the bytes after the last dot. A name
/// without a dot, or whose only dot starts it (a hidden file), has none.
pub open spec fn extension_of(name: Seq<u8>) -> Option<Seq<u8>> {
    match name.index_of_last(0x2Eu8) {
        Some(p) => if p == 0 {
            None
        } else {
            Some(name.subrange(p + 1, name.len() as int))
        },
        None => None,
    }
}

/// The allow-list of native-binary extensions, lower case:
/// `dll`, `exe`, `sys`, `drv`, `cpl`, `mui`, `ocx`.
pub open spec fn allowed_extensions() -> Seq<Seq<u8>> {
    seq![
        seq![0x64u8, 0x6C, 0x6C],
        seq![0x65u8, 0x78, 0x65],
        seq![0x73u8, 0x79, 0x73],
        seq![0x64u8, 0x72, 0x76],
        seq![0x63u8, 0x70, 0x6C],
        seq![0x6Du8, 0x75, 0x69],
        seq![0x6Fu8, 0x63, 0x78],
    ]
}

/// Whether an extension is on the allow-list, compared without regard to
/// ASCII case.
pub open spec fn allowed_extension(ext: Seq<u8>) -> bool {
    allowed_extensions().contains(lower_bytes(ext))
}

/// Whether a file name passes the filter: it has an extension and the
/// extension is on the allow-list.
pub open spec fn name_allowed(name: Seq<u8>) -> bool {
    match extension_of(name) {
        Some(e) => allowed_extension(e),
        None => false,
    }
}

/// Whether a name passes the filter is decided by its extension alone,
/// without regard to ASCII case: names whose extensions agree once lowered
/// are included or excluded together.
pub proof fn lemma_filter_extension_only(n1: Seq<u8>, n2: Seq<u8>)
    requires
        extension_of(n1) is Some,
        extension_of(n2) is Some,
        lower_bytes(extension_of(n1).unwrap()) == lower_bytes(extension_of(n2).unwrap()),
    ensures
        name_allowed(n1) == name_allowed(n2),
{
}

/// A file name without an extension never passes the filter.
pub proof fn lemma_no_extension_excluded(name: Seq<u8>)
    requires
        extension_of(name) is None,
    ensures
        !name_allowed(name),
{
}

/// The lower-case form of an ASCII byte, as an executable step.
fn lower_byte(b: u8) -> (r: u8)
    ensures
        r == ascii_lower(b),
{
    if 0x41 <= b && b <= 0x5A {
        b + 0x20
    } else {
        b
    }
}

/// Index of the last dot of a file name, if any.
fn find_last_dot(name: &[u8]) -> (r: Option<usize>)
    ensures
        r matches Some(p) ==> name@.index_of_last(0x2Eu8) == Some(p as int),
        r is None ==> name@.index_of_last(0x2Eu8) is None,
{
    let n = name.len();
    let mut i: usize = n;
    while i > 0
        invariant
            i <= n,
            n == name@.len(),
            forall|j: int| i <= j < n ==> name@[j] != 0x2E,
        decreases i,
    {
        i = i - 1;
        if name[i] == 0x2E {
            proof {
                name@.index_of_last_ensures(0x2Eu8);
            }
            return Some(i);
        }
    }
    proof {
        name@.index_of_last_ensures(0x2Eu8);
    }
    None
}

/// Whether the three lowered bytes spell one of the allowed extensions.
fn allowed_triple(a: u8, b: u8, c: u8) -> (r: bool)
    ensures
        r == allowed_extensions().contains(seq![a, b, c]),
{
    let r = (a == 0x64 && b == 0x6C && c == 0x6C) || (a == 0x65 && b == 0x78 && c == 0x65) || (a
        == 0x73 && b == 0x79 && c == 0x73) || (a == 0x64 && b == 0x72 && c == 0x76) || (a == 0x63
        && b == 0x70 && c == 0x6C) || (a == 0x6D && b == 0x75 && c == 0x69) || (a == 0x6F && b
        == 0x63 && c == 0x78);
    proof {
        let t = seq![a, b, c];
        if r {
            assert(allowed_extensions().contains(t));
        } else {
            assert(forall|i: int|
                0 <= i < allowed_extensions().len() ==> allowed_extensions()[i] != t);
        }
    }
    r
}

/// Whether the file name names a native binary: its extension is on the
/// allow-list, compared without regard to ASCII case.
pub fn is_native_binary_name(name: &[u8]) -> (r: bool)
    ensures
        r == name_allowed(name@),
{
    let n = name.len();
    let p = match find_last_dot(name) {
        Some(p) => p,
        None => {
            return false;
        },
    };
    if p == 0 {
        return false;
    }
    proof {
        name@.index_of_last_ensures(0x2Eu8);
    }
    let ext_len = n - 1 - p;
    if ext_len != 3 {
        proof {
            let ext = extension_of(name@).unwrap();
            assert(lower_bytes(ext).len() == ext.len());
            assert(forall|i: int|
                0 <= i < allowed_extensions().len() ==> #[trigger] allowed_extensions()[i].len()
                    == 3);
            assert(!allowed_extension(ext));
        }
        return false;
    }
    let a = lower_byte(name[p + 1]);
    let b = lower_byte(name[p + 2]);
    let c = lower_byte(name[p + 3]);
    let r = allowed_triple(a, b, c);
    proof {
        let ext = extension_of(name@).unwrap();
        assert(lower_bytes(ext) =~= seq![a, b, c]);
    }
    r
}

} // verus!
