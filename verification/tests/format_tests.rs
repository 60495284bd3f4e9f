use store_validator::format::{byte_list_string, format_key, hex_string};
use store_validator::store::DBCol;

#[test]
fn hex_string_exact() {
    assert_eq!(hex_string(&[0x00, 0x1f, 0xa0, 0xff]), "001fa0ff");
    assert_eq!(hex_string(&[]), "");
}

#[test]
fn byte_list_string_exact() {
    assert_eq!(byte_list_string(&[0, 12, 123, 255]), "0, 12, 123, 255");
    assert_eq!(byte_list_string(&[9]), "9");
    assert_eq!(byte_list_string(&[]), "");
}

#[test]
fn format_valid_hash_key() {
    let key = vec![0xab; 32];
    let expected = format!("hash:{}", "ab".repeat(32));
    assert_eq!(format_key(DBCol::ColBlock, &key), expected);
    assert_eq!(format_key(DBCol::ColBlockHeader, &key), expected);
}

#[test]
fn format_wrong_length_hash_key() {
    assert_eq!(format_key(DBCol::ColBlock, &[1, 2, 3]), "invalid hash key");
    assert_eq!(format_key(DBCol::ColBlockHeader, &vec![0; 33]), "invalid hash key");
}

#[test]
fn format_chunk_key() {
    let key = vec![0x01; 32];
    assert_eq!(format_key(DBCol::ColChunks, &key), format!("chunk:{}", "01".repeat(32)));
    assert_eq!(format_key(DBCol::ColChunks, &[7; 8]), "invalid chunk hash key");
}

#[test]
fn format_misc_key_uses_byte_list() {
    assert_eq!(format_key(DBCol::ColBlockMisc, &[0, 12, 123, 255]), "[0, 12, 123, 255]");
    assert_eq!(format_key(DBCol::ColBlockMisc, &[]), "[]");
}

#[test]
fn format_distinct_keys_render_distinctly() {
    let mut k1 = vec![0u8; 32];
    let mut k2 = vec![0u8; 32];
    k1[31] = 1;
    k2[31] = 2;
    assert_ne!(format_key(DBCol::ColBlock, &k1), format_key(DBCol::ColBlock, &k2));
}
