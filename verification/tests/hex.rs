use precios_carburantes::hex::hex_lower;

#[test]
fn hex_of_empty_is_empty() {
    assert_eq!(hex_lower(&[]), "");
}

#[test]
fn hex_pads_and_uses_lowercase() {
    assert_eq!(hex_lower(&[0x00, 0x0f, 0xa0, 0xff, 0x10]), "000fa0ff10");
}

#[test]
fn hex_has_two_digits_per_byte() {
    let bytes: Vec<u8> = (0..=255u8).collect();
    let text = hex_lower(&bytes);
    assert_eq!(text.len(), 512);
    assert!(text.chars().all(|c| c.is_ascii_digit() || ('a'..='f').contains(&c)));
    for (i, b) in bytes.iter().enumerate() {
        assert_eq!(&text[2 * i..2 * i + 2], format!("{:02x}", b));
    }
}
