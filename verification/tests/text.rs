use gif_that_for_you::text::{chars_of, decimal_string, push_char, push_chars, push_decimal, push_signed_decimal, same_text};

#[test]
fn decimal_rendering_matches_display() {
    for n in [0u64, 7, 10, 99, 100, 1234567890, u64::MAX] {
        assert_eq!(decimal_string(n), n.to_string());
    }
    let mut t = String::from("x=");
    push_decimal(&mut t, 305);
    assert_eq!(t, "x=305");
}

#[test]
fn signed_rendering_matches_display() {
    for i in [0i32, 5, -5, 2147483647, -2147483648, -10] {
        let mut t = String::new();
        push_signed_decimal(&mut t, i);
        assert_eq!(t, i.to_string());
    }
}

#[test]
fn characters_round_trip() {
    let cs = chars_of("a·b");
    assert_eq!(cs, vec!['a', '·', 'b']);
    let mut t = String::new();
    push_chars(&mut t, &cs, 1, 3);
    assert_eq!(t, "·b");
    push_char(&mut t, '!');
    assert_eq!(t, "·b!");
    assert!(same_text(&t, "·b!"));
    assert!(!same_text(&t, "·b"));
}
