use symbolfetch::codeview::extract_debug_name;
use symbolfetch::codeview::parse_debug_record;

fn name_field(prefix: &[u8]) -> Vec<u8> {
    let mut field = vec![0u8; 255];
    field[..prefix.len()].copy_from_slice(prefix);
    field
}

#[test]
fn name_stops_at_first_zero() {
    let field = name_field(b"ntdll.pdb\0garbage after the terminator");
    assert_eq!(extract_debug_name(&field), Some("ntdll.pdb".to_string()));
}

#[test]
fn zero_at_index_k_yields_k_bytes() {
    let field = name_field(b"abcdef\0");
    let name = extract_debug_name(&field).unwrap();
    assert_eq!(name.len(), 6);
    assert_eq!(name, "abcdef");
}

#[test]
fn field_without_zero_yields_nothing() {
    let field = vec![0x41u8; 255];
    assert_eq!(extract_debug_name(&field), None);
}

#[test]
fn invalid_utf8_yields_nothing() {
    let field = name_field(&[0xFF, 0xFE, 0x41, 0x00]);
    assert_eq!(extract_debug_name(&field), None);
}

#[test]
fn leading_zero_yields_empty_name() {
    let field = vec![0u8; 255];
    assert_eq!(extract_debug_name(&field), Some(String::new()));
}

fn record_image(name: &[u8], guid: [u8; 16], age: u32, offset: usize) -> Vec<u8> {
    let mut image = vec![0u8; offset + 279 + 16];
    image[offset..offset + 4].copy_from_slice(b"RSDS");
    image[offset + 4..offset + 20].copy_from_slice(&guid);
    image[offset + 20..offset + 24].copy_from_slice(&age.to_le_bytes());
    image[offset + 24..offset + 24 + name.len()].copy_from_slice(name);
    image
}

#[test]
fn record_is_decoded_at_its_offset() {
    let guid: [u8; 16] = [
        0x01, 0x02, 0x03, 0x04, 0x05, 0x06, 0x07, 0x08, 0x09, 0x0A, 0x0B, 0x0C, 0x0D, 0x0E, 0x0F,
        0x10,
    ];
    let image = record_image(b"ntdll.pdb\0", guid, 3, 0x80);
    let meta = parse_debug_record(&image, 0x80).expect("record expected");
    assert_eq!(meta.name, "ntdll.pdb");
    assert_eq!(meta.guid, "0403020106050807090A0B0C0D0E0F10");
    assert_eq!(meta.age, 3);
}

#[test]
fn short_name_is_rejected() {
    let image = record_image(b"abc\0", [0u8; 16], 1, 0x40);
    assert!(parse_debug_record(&image, 0x40).is_none());
}

#[test]
fn four_byte_name_is_kept() {
    let image = record_image(b"abcd\0", [0u8; 16], 1, 0x40);
    let meta = parse_debug_record(&image, 0x40).expect("record expected");
    assert_eq!(meta.name, "abcd");
}

#[test]
fn record_out_of_bounds_is_rejected() {
    let image = vec![0u8; 300];
    assert!(parse_debug_record(&image, 200).is_none());
    assert!(parse_debug_record(&image, 30000).is_none());
}

#[test]
fn unterminated_name_field_is_rejected() {
    let mut image = record_image(b"", [0u8; 16], 7, 0x40);
    for b in image[0x40 + 24..0x40 + 279].iter_mut() {
        *b = 0x41;
    }
    assert!(parse_debug_record(&image, 0x40).is_none());
}

#[test]
fn age_is_read_little_endian() {
    let image = record_image(b"ntdll.pdb\0", [0u8; 16], 0x0102_0304, 0);
    let meta = parse_debug_record(&image, 0).expect("record expected");
    assert_eq!(meta.age, 0x0102_0304);
}
