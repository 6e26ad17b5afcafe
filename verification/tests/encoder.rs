use symbolfetch::guid::encode_guid;

#[test]
fn encodes_documented_example() {
    let input: [u8; 16] = [
        0x01, 0x02, 0x03, 0x04, 0x05, 0x06, 0x07, 0x08, 0x09, 0x0A, 0x0B, 0x0C, 0x0D, 0x0E, 0x0F,
        0x10,
    ];
    assert_eq!(encode_guid(&input), "0403020106050807090A0B0C0D0E0F10");
}

#[test]
fn encoding_is_deterministic() {
    let input: [u8; 16] = [
        0xDE, 0xAD, 0xBE, 0xEF, 0x00, 0x11, 0x22, 0x33, 0x44, 0x55, 0x66, 0x77, 0x88, 0x99, 0xAA,
        0xBB,
    ];
    let first = encode_guid(&input);
    let second = encode_guid(&input);
    assert_eq!(first, second);
    assert_eq!(first.len(), 32);
}

#[test]
fn encodes_all_zero_guid() {
    let input: [u8; 16] = [0; 16];
    assert_eq!(encode_guid(&input), "00000000000000000000000000000000");
}

#[test]
fn matches_hex_crate_on_reordered_bytes() {
    let g: Vec<u8> = (0u8..16).map(|i| i.wrapping_mul(17).wrapping_add(3)).collect();
    let reordered = [
        g[3], g[2], g[1], g[0], g[5], g[4], g[7], g[6], g[8], g[9], g[10], g[11], g[12], g[13],
        g[14], g[15],
    ];
    let expected = hex::encode(reordered).to_uppercase();
    assert_eq!(encode_guid(&g), expected);
}
