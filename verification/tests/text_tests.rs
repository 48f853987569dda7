use oxidisk::text::{push_decimal, push_hex};

#[test]
fn decimal_rendering() {
    let mut s = String::new();
    push_decimal(&mut s, 0);
    assert_eq!(s, "0");
    let mut s = String::from("row ");
    push_decimal(&mut s, 1907);
    assert_eq!(s, "row 1907");
    let mut s = String::new();
    push_decimal(&mut s, usize::MAX);
    assert_eq!(s, usize::MAX.to_string());
}

#[test]
fn hex_rendering() {
    let mut s = String::new();
    push_hex(&mut s, 0x80070057, 8);
    assert_eq!(s, "80070057");
    let mut s = String::new();
    push_hex(&mut s, 0xC0AA0404, 8);
    assert_eq!(s, "C0AA0404");
    let mut s = String::new();
    push_hex(&mut s, 0x2f, 8);
    assert_eq!(s, "0000002F");
    let mut s = String::new();
    push_hex(&mut s, 0xabc, 2);
    assert_eq!(s, "BC");
}
