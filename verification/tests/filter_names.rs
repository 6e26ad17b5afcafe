use symbolfetch::filter::is_native_binary_name;

#[test]
fn inclusion_ignores_ascii_case() {
    assert!(is_native_binary_name(b"Foo.DLL"));
    assert!(is_native_binary_name(b"foo.dll"));
    assert!(is_native_binary_name(b"kernel32.SyS"));
}

#[test]
fn every_allowed_extension_is_included() {
    assert!(is_native_binary_name(b"a.dll"));
    assert!(is_native_binary_name(b"a.exe"));
    assert!(is_native_binary_name(b"a.sys"));
    assert!(is_native_binary_name(b"a.drv"));
    assert!(is_native_binary_name(b"a.cpl"));
    assert!(is_native_binary_name(b"a.mui"));
    assert!(is_native_binary_name(b"a.ocx"));
}

#[test]
fn other_extensions_are_excluded() {
    assert!(!is_native_binary_name(b"foo.txt"));
    assert!(!is_native_binary_name(b"foo.pdb"));
    assert!(!is_native_binary_name(b"notepad.exe.bak"));
}

#[test]
fn names_without_extension_are_excluded() {
    assert!(!is_native_binary_name(b"foo"));
    assert!(!is_native_binary_name(b""));
    assert!(!is_native_binary_name(b".dll"));
}

#[test]
fn empty_extension_is_excluded() {
    assert!(!is_native_binary_name(b"foo."));
}
