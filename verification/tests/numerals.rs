use roost::numfmt::u16_to_dec;

#[test]
fn single_digits_render() {
    assert_eq!(u16_to_dec(0), "0");
    assert_eq!(u16_to_dec(7), "7");
    assert_eq!(u16_to_dec(9), "9");
}

#[test]
fn status_codes_render() {
    assert_eq!(u16_to_dec(100), "100");
    assert_eq!(u16_to_dec(404), "404");
    assert_eq!(u16_to_dec(503), "503");
}

#[test]
fn largest_value_renders() {
    assert_eq!(u16_to_dec(65535), "65535");
    assert_eq!(u16_to_dec(10), "10");
}
