use dmz::text::{i32_text, u32_text};

#[test]
fn decimal_notation() {
    assert_eq!(u32_text(0), "0");
    assert_eq!(u32_text(7), "7");
    assert_eq!(u32_text(10), "10");
    assert_eq!(u32_text(250_000), "250000");
    assert_eq!(u32_text(u32::MAX), "4294967295");
    assert_eq!(i32_text(-42), "-42");
    assert_eq!(i32_text(i32::MIN), "-2147483648");
    assert_eq!(i32_text(359), "359");
}
