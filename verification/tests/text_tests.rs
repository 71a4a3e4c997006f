use rink::text::{char_is_whitespace, push_char, trim, write_decimal};

fn decimal_string(n: u128) -> String {
    let mut s = String::new();
    write_decimal(&mut s, n);
    s
}

#[test]
fn decimal_rendering() {
    assert_eq!(decimal_string(0), "0");
    assert_eq!(decimal_string(7), "7");
    assert_eq!(decimal_string(10), "10");
    assert_eq!(decimal_string(6599), "6599");
    assert_eq!(decimal_string(u128::MAX), u128::MAX.to_string());
    let mut s = String::from("n=");
    write_decimal(&mut s, 404);
    assert_eq!(s, "n=404");
}

#[test]
fn push_and_trim() {
    let mut s = String::new();
    push_char(&mut s, 'x');
    push_char(&mut s, 'é');
    assert_eq!(s, "xé");
    assert_eq!(trim(" \u{2003}é x\r\n"), "é x");
}

#[test]
fn whitespace_matches_std() {
    for n in 0..=0x10ffffu32 {
        if let Some(c) = char::from_u32(n) {
            assert_eq!(char_is_whitespace(c), c.is_whitespace(), "U+{:04X}", n);
        }
    }
}
