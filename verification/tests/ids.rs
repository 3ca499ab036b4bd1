use open_realtime::ids::{clock_id, make_id, push_hex, uuid_simple};

#[test]
fn ids_are_prefix_and_counter() {
    assert_eq!(make_id("resp", 1), "resp_1");
    assert_eq!(make_id("item", 1024), "item_1024");
    assert_eq!(make_id("call", 0), "call_0");
}

#[test]
fn hex_is_zero_padded_lower_case() {
    let mut s = String::from("x");
    push_hex(&mut s, 0xbeef, 6);
    assert_eq!(s, "x00beef");
    let mut t = String::new();
    push_hex(&mut t, 0x12345, 4);
    assert_eq!(t, "2345");
}

#[test]
fn clock_id_formats_nanos() {
    assert_eq!(clock_id(0), "000000000000");
    assert_eq!(clock_id(0x12345678), "123456781234");
    assert_eq!(clock_id(999_999_999), format!("{:08x}{:04x}", 999_999_999u32, (999_999_999u32 >> 16) & 0xFFFF));
}

#[test]
fn uuid_simple_is_twelve_hex_digits() {
    let id = uuid_simple();
    assert_eq!(id.len(), 12);
    assert!(id.chars().all(|c| c.is_ascii_hexdigit() && !c.is_ascii_uppercase()));
}
