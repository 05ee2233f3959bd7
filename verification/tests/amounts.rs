use betterwheel::decimal::{push_shortest, read_decimal, read_digits, read_int, read_long};
use betterwheel::fixed::{
    clamp_to, dec_string, floor_of, int_string, push_ratio, push_size, round_cents,
    round_cents_wide,
};
use betterwheel::text::{
    chars_of, find_from, has_part, has_text, lowered, same_text, split_chars, string_of, trimmed,
    upper_char,
};

fn chars(s: &str) -> Vec<char> {
    s.chars().collect()
}

#[test]
fn cents_round_half_away_from_zero() {
    assert_eq!(round_cents(1_234_999), 1_230_000);
    assert_eq!(round_cents(1_235_000), 1_240_000);
    assert_eq!(round_cents(-1_235_000), -1_240_000);
    assert_eq!(round_cents_wide(5_000), 10_000);
    assert_eq!(round_cents_wide(-4_999), 0);
    // What is rounded once stays.
    assert_eq!(round_cents(round_cents(1_237_777)), round_cents(1_237_777));
}

#[test]
fn floors_go_down() {
    assert_eq!(floor_of(7, 2), 3);
    assert_eq!(floor_of(-7, 2), -4);
    assert_eq!(floor_of(-8, 2), -4);
    assert_eq!(clamp_to(5, 10, 20), 10);
    assert_eq!(clamp_to(25, 10, 20), 20);
}

#[test]
fn amounts_in_text() {
    assert_eq!(dec_string(1_234_567, 2), "1.23");
    assert_eq!(dec_string(1_235_001, 2), "1.24");
    assert_eq!(dec_string(500_000, 0), "0");
    assert_eq!(dec_string(1_500_000, 0), "2");
    assert_eq!(dec_string(2_500_000, 0), "2");
    assert_eq!(dec_string(-95_000_000, 1), "-95.0");
    assert_eq!(int_string(-7), "-7");
    assert_eq!(int_string(1_000_000), "1000000");
    let mut s = String::from("~");
    push_ratio(&mut s, 1, 3, 2);
    push_size(&mut s, -5, 2, 1);
    assert_eq!(s, "~0.332.5");
}

#[test]
fn amounts_read_back() {
    for x in [0, 1, -1, 10, 182_500_000, 7_510_000_000, -12_345_678, 1_000_001, i64::MAX, i64::MIN] {
        let mut s = String::new();
        push_shortest(&mut s, x);
        assert_eq!(read_decimal(&chars(&s)), Some(x), "{s}");
    }
}

#[test]
fn decimals_are_read() {
    assert_eq!(read_decimal(&chars("7480.5")), Some(7_480_500_000));
    assert_eq!(read_decimal(&chars("+.5")), Some(500_000));
    assert_eq!(read_decimal(&chars("5.")), Some(5_000_000));
    assert_eq!(read_decimal(&chars("-0.0000005")), Some(-1));
    for bad in ["", ".", "-", "1.2.3", "abc", "1e", "1e+", "e3", ".e3", "1e3.5", "1e3e3", " 1"] {
        assert_eq!(read_decimal(&chars(bad)), None, "{bad}");
    }
    assert_eq!(read_decimal(&chars("1e3")), Some(1_000_000_000));
    assert_eq!(read_decimal(&chars("-7.51E+3")), Some(-7_510_000_000));
    assert_eq!(read_decimal(&chars("2.5e-6")), Some(3));
    assert_eq!(read_decimal(&chars("5.e0")), Some(5_000_000));
    assert_eq!(read_decimal(&chars("1e-99999999999999999999")), Some(0));
    assert_eq!(read_decimal(&chars("0e99999999999999999999")), Some(0));
    assert_eq!(read_decimal(&chars("1e99999999999999999999")), None);
    assert_eq!(read_decimal(&chars("9223372036854.775807")), Some(i64::MAX));
    assert_eq!(read_decimal(&chars("-9223372036854.775808")), Some(i64::MIN));
    assert_eq!(read_decimal(&chars("9223372036854.775808")), None);
    assert_eq!(read_int(&chars("-42")), Some(-42));
    assert_eq!(read_int(&chars("2147483648")), None);
    assert_eq!(read_long(&chars("2147483648")), Some(2_147_483_648));
    assert_eq!(read_long(&chars("+")), None);
    assert_eq!(read_digits(&chars("x12y"), 1, 3), Some(12));
    assert_eq!(read_digits(&chars("x12y"), 1, 4), None);
}

#[test]
fn text_helpers() {
    assert!(same_text("a", "a") && !same_text("a", "A"));
    assert_eq!(string_of(&chars_of("wheel"), 1, 4), "hee");
    assert_eq!(trimmed("  a b\t\n"), "a b");
    assert_eq!(trimmed("\u{a0}x\u{3000}"), "x");
    assert!(has_part(&lowered("Market DATA"), "data"));
    assert!(!has_part(&lowered("abc"), "abcd"));
    assert!(has_part(&lowered("abc"), ""));
    assert_eq!(find_from(&chars("a:b:c"), 2, ':'), 1);
    assert_eq!(find_from(&chars("abc"), 0, ':'), 3);
    assert_eq!(upper_char('z'), 'Z');
    assert_eq!(upper_char('é'), 'é');
    let list = vec!["x".to_string()];
    assert!(has_text(&list, "x") && !has_text(&list, "y"));
    let parts = split_chars(&chars("a;;b"), ';');
    assert_eq!(parts, vec![chars("a"), chars(""), chars("b")]);
}
