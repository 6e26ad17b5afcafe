use symbolfetch::windows::FileEntry;
use symbolfetch::windows::Windows;

fn put_u16(buf: &mut [u8], off: usize, v: u16) {
    buf[off..off + 2].copy_from_slice(&v.to_le_bytes());
}

fn put_u32(buf: &mut [u8], off: usize, v: u32) {
    buf[off..off + 4].copy_from_slice(&v.to_le_bytes());
}

/// A minimal 32-bit PE disk image with no sections, whose debug data
/// directory points at a CodeView record holding the given identity.
fn build_pe(name: &[u8], guid: [u8; 16], age: u32) -> Vec<u8> {
    let mut b = vec![0u8; 0x270];
    // DOS header
    put_u16(&mut b, 0x00, 0x5A4D); // e_magic "MZ"
    put_u32(&mut b, 0x3C, 0x40); // e_lfanew
    // NT headers
    put_u32(&mut b, 0x40, 0x0000_4550); // "PE\0\0"
    put_u16(&mut b, 0x44, 0x014C); // machine: x86
    put_u16(&mut b, 0x46, 0); // no sections
    put_u16(&mut b, 0x54, 0x00E0); // size of optional header
    put_u16(&mut b, 0x56, 0x0102); // characteristics
    // optional header
    put_u16(&mut b, 0x58, 0x010B); // PE32 magic
    put_u32(&mut b, 0x58 + 56, 0x1000); // size_of_image
    put_u32(&mut b, 0x58 + 92, 16); // number_of_rva_and_sizes
    // debug data directory: entry 6 of the table at 0xB8
    put_u32(&mut b, 0xE8, 0x138); // RVA of the debug directory
    put_u32(&mut b, 0xEC, 28); // its size
    // debug directory: with no sections the RVA maps to the same offset
    put_u32(&mut b, 0x138 + 12, 2); // type: CodeView
    put_u32(&mut b, 0x138 + 24, 0x154); // pointer_to_raw_data
    // CodeView record
    b[0x154..0x158].copy_from_slice(b"RSDS");
    b[0x158..0x168].copy_from_slice(&guid);
    put_u32(&mut b, 0x168, age);
    b[0x16C..0x16C + name.len()].copy_from_slice(name);
    b
}

const GUID: [u8; 16] = [
    0x01, 0x02, 0x03, 0x04, 0x05, 0x06, 0x07, 0x08, 0x09, 0x0A, 0x0B, 0x0C, 0x0D, 0x0E, 0x0F,
    0x10,
];

#[test]
fn windows_keeps_its_path() {
    let w = Windows::new("C:/Windows".to_string());
    assert_eq!(w.get_path(), "C:/Windows");
}

#[test]
fn end_to_end_image_yields_identifier_and_url() {
    let image = build_pe(b"ntdll.pdb\0", GUID, 3);
    let w = Windows::new("root".to_string());
    let meta = w.get_hash_and_pdb_name(&image).expect("identifier expected");
    assert_eq!(meta.name, "ntdll.pdb");
    assert_eq!(meta.guid, "0403020106050807090A0B0C0D0E0F10");
    assert_eq!(meta.age, 3);
    assert_eq!(
        meta.download_url(),
        "https://msdl.microsoft.com/download/symbols/ntdll.pdb/0403020106050807090A0B0C0D0E0F103/ntdll.pdb"
    );
}

#[test]
fn non_pe_bytes_yield_nothing() {
    let w = Windows::new("root".to_string());
    assert!(w.get_hash_and_pdb_name(&vec![0u8; 128]).is_none());
    assert!(w.get_hash_and_pdb_name(&Vec::new()).is_none());
}

#[test]
fn images_are_processed_in_order() {
    let w = Windows::new("root".to_string());
    let images = vec![
        build_pe(b"first.pdb\0", GUID, 1),
        vec![0u8; 64],
        build_pe(b"second.pdb\0", [0xAB; 16], 2),
    ];
    let metas = w.get_hash_and_pdb_names(&images);
    assert_eq!(metas.len(), 2);
    assert_eq!(metas[0].name, "first.pdb");
    assert_eq!(metas[0].age, 1);
    assert_eq!(metas[1].name, "second.pdb");
    assert_eq!(metas[1].age, 2);
}

#[test]
fn fetch_filters_by_name_and_skips_unreadable_binaries() {
    let w = Windows::new("root".to_string());
    let entries = vec![
        FileEntry { name: b"ntdll.dll".to_vec(), data: build_pe(b"ntdll.pdb\0", GUID, 3) },
        FileEntry { name: b"readme.txt".to_vec(), data: build_pe(b"readme.pdb\0", GUID, 9) },
        FileEntry { name: b"broken.exe".to_vec(), data: vec![0u8; 32] },
        FileEntry { name: b"Setup.EXE".to_vec(), data: build_pe(b"setup.pdb\0", GUID, 7) },
    ];
    let metas = w.fetch_system32_pdbs(&entries);
    assert_eq!(metas.len(), 2);
    assert_eq!(metas[0].name, "ntdll.pdb");
    assert_eq!(metas[0].age, 3);
    assert_eq!(metas[1].name, "setup.pdb");
    assert_eq!(metas[1].age, 7);
}

#[test]
fn overflowing_section_headers_are_skipped() {
    // A PE whose only section claims a virtual end past the 32-bit limit:
    // a malformed file that must degrade to a skip, not a crash.
    let mut image = build_pe(b"ntdll.pdb\0", GUID, 3);
    put_u16(&mut image, 0x46, 1); // one section
    // section header at 0x40 + 24 + 0xE0 = 0x138
    put_u32(&mut image, 0x138 + 8, 0xFFFF_FFF0); // virtual_size
    put_u32(&mut image, 0x138 + 12, 0x100); // virtual_address
    let w = Windows::new("root".to_string());
    assert!(w.get_hash_and_pdb_name(&image).is_none());
}

#[test]
fn overflowing_raw_pointer_is_skipped() {
    let mut image = build_pe(b"ntdll.pdb\0", GUID, 3);
    put_u16(&mut image, 0x46, 1); // one section
    put_u32(&mut image, 0x138 + 8, 0x200); // virtual_size
    put_u32(&mut image, 0x138 + 12, 0x100); // virtual_address
    put_u32(&mut image, 0x138 + 16, 0x10); // size_of_raw_data
    put_u32(&mut image, 0x138 + 20, 0xFFFF_FFF8); // pointer_to_raw_data
    let w = Windows::new("root".to_string());
    assert!(w.get_hash_and_pdb_name(&image).is_none());
}

#[test]
fn short_record_name_is_skipped() {
    let w = Windows::new("root".to_string());
    let image = build_pe(b"a.p\0", GUID, 1);
    assert!(w.get_hash_and_pdb_name(&image).is_none());
}
