use yupdates::decimal::{chars_of, parse_u64, push_decimal, push_fixed_width};
use yupdates::trim::{char_is_whitespace, trim};

#[test]
fn parse_u64_agrees_with_the_standard_parser() {
    let texts = [
        "",
        "0",
        "00",
        "7",
        "+7",
        "+",
        "-7",
        "++7",
        "+-7",
        "7+",
        "12345",
        "0000000000000000000000000000000000123",
        "18446744073709551615",
        "18446744073709551616",
        "18446744073709551620",
        "28446744073709551615",
        "99999999999999999999",
        "184467440737095516150",
        "1 2",
        " 12",
        "12 ",
        "1_000",
        "0x10",
        "1e3",
        "1.5",
        "\u{663}",
        "12\u{e9}",
    ];
    for text in texts {
        assert_eq!(parse_u64(text), text.parse::<u64>().ok(), "{:?}", text);
    }
}

#[test]
fn push_decimal_writes_the_shortest_rendering() {
    for n in [0u64, 1, 9, 10, 11, 99, 100, 12345, 9_999_999_999_999, u64::MAX] {
        let mut out = String::from("n=");
        push_decimal(&mut out, n);
        assert_eq!(out, format!("n={}", n));
    }
}

#[test]
fn push_fixed_width_pads_with_zeros() {
    for n in [0u64, 1, 9, 10, 99, 100, 12345, 99999] {
        let mut out = String::new();
        push_fixed_width(&mut out, n, 5);
        assert_eq!(out, format!("{:0>5}", n));
    }
    let mut out = String::from("x");
    push_fixed_width(&mut out, 123456, 3);
    assert_eq!(out, "x456");
    let mut out = String::from("x");
    push_fixed_width(&mut out, 123456, 0);
    assert_eq!(out, "x");
}

#[test]
fn push_decimal_writes_each_digit() {
    let mut all = String::new();
    for d in 0u64..10 {
        push_decimal(&mut all, d);
    }
    assert_eq!(all, "0123456789");
    push_decimal(&mut all, 1234567890);
    assert_eq!(all, "01234567891234567890");
}

#[test]
fn chars_of_collects_every_character() {
    assert_eq!(chars_of(""), Vec::<char>::new());
    assert_eq!(chars_of("a\u{e9}\u{3000}z"), vec!['a', '\u{e9}', '\u{3000}', 'z']);
}

#[test]
fn whitespace_is_what_the_standard_library_calls_whitespace() {
    let mut code: u32 = 0;
    while code <= 0x10FFFF {
        if let Some(c) = char::from_u32(code) {
            assert_eq!(char_is_whitespace(c), c.is_whitespace(), "U+{:04X}", code);
        }
        code += 1;
    }
}

#[test]
fn trim_agrees_with_the_standard_trim() {
    let texts = [
        "",
        " ",
        "   ",
        "a",
        " a",
        "a ",
        "  a b  ",
        "\t\n a \r\n",
        "\u{3000}x\u{2003}y\u{a0}",
        "\u{85}\u{1680}",
        "\u{200b}x\u{200b}",
        " \u{e9} ",
    ];
    for text in texts {
        assert_eq!(trim(text), text.trim(), "{:?}", text);
    }
}
