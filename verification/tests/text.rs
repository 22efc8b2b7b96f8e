use fanwatch::text::{append_integer, append_numeral, digit, find_char};

#[test]
fn finds_the_first_of_several() {
    assert_eq!(find_char("4.4.0-174-generic", '-'), 5);
    assert_eq!(find_char("4.4.0-174-generic", '.'), 1);
    assert_eq!(find_char("-x", '-'), 0);
}

#[test]
fn finds_nothing_at_the_length() {
    assert_eq!(find_char("5.10.0", '-'), 6);
    assert_eq!(find_char("", '-'), 0);
}

#[test]
fn counts_characters_not_bytes() {
    assert_eq!(find_char("\u{e9}\u{e9}-", '-'), 2);
    assert_eq!(find_char("\u{65e5}\u{672c}", '-'), 2);
}

#[test]
fn appends_numerals() {
    let mut out = String::from("n=");
    append_numeral(&mut out, 0);
    assert_eq!(out, "n=0");
    append_numeral(&mut out, 7);
    assert_eq!(out, "n=07");
    append_numeral(&mut out, 10);
    assert_eq!(out, "n=0710");
    append_numeral(&mut out, 1_000_000);
    assert_eq!(out, "n=07101000000");
    let mut out = String::new();
    append_numeral(&mut out, u64::MAX);
    assert_eq!(out, "18446744073709551615");
    let mut out = String::new();
    append_numeral(&mut out, 9_876_543_210);
    assert_eq!(out, "9876543210");
}

#[test]
fn appends_integers_with_sign() {
    let mut out = String::new();
    append_integer(&mut out, -1);
    assert_eq!(out, "-1");
    append_integer(&mut out, 0);
    assert_eq!(out, "-10");
    append_integer(&mut out, 4321);
    assert_eq!(out, "-104321");
    let mut out = String::new();
    append_integer(&mut out, i32::MIN);
    assert_eq!(out, "-2147483648");
    let mut out = String::new();
    append_integer(&mut out, i32::MAX);
    assert_eq!(out, "2147483647");
}

#[test]
fn tells_digits() {
    for c in '0'..='9' {
        assert!(digit(c));
    }
    assert!(!digit('/'));
    assert!(!digit(':'));
    assert!(!digit('a'));
    assert!(!digit('.'));
    assert!(!digit('\u{0660}'));
}
