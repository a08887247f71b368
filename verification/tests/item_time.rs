use yupdates::errors::{Error, Kind};
use yupdates::item_time::{parse_bounded_int, MAX_BASE_MS, MAX_SLOT};
use yupdates::{normalize_item_time, normalize_item_time_ms};

fn illegal_parameter(result: Result<String, Error>) -> String {
    match result {
        Err(Error {
            kind: Kind::IllegalParameter(text),
        }) => text,
        other => panic!("unexpected outcome: {:?}", other),
    }
}

#[test]
fn normalize_accepts_the_documented_forms() {
    assert_eq!(normalize_item_time("1234").unwrap(), "0000000001234.00000");
    assert_eq!(
        normalize_item_time("1661564013555").unwrap(),
        "1661564013555.00000"
    );
    assert_eq!(
        normalize_item_time("1661564013555.00003").unwrap(),
        "1661564013555.00003"
    );
    assert_eq!(
        normalize_item_time("123456.789").unwrap(),
        "0000000123456.00789"
    );
}

#[test]
fn normalize_pads_to_thirteen_and_five_digits() {
    assert_eq!(normalize_item_time("0").unwrap(), "0000000000000.00000");
    assert_eq!(normalize_item_time("0.0").unwrap(), "0000000000000.00000");
    assert_eq!(normalize_item_time("7.3").unwrap(), "0000000000007.00003");
    assert_eq!(
        normalize_item_time("9999999999999.99999").unwrap(),
        "9999999999999.99999"
    );
    let text = normalize_item_time("42.17").unwrap();
    assert_eq!(text.len(), 19);
    assert_eq!(text.find('.'), Some(13));
}

#[test]
fn normalize_reads_leading_zeros_and_a_plus_sign() {
    assert_eq!(
        normalize_item_time("000000000000000000000000012.0000000005").unwrap(),
        "0000000000012.00005"
    );
    assert_eq!(normalize_item_time("+5").unwrap(), "0000000000005.00000");
    assert_eq!(normalize_item_time("+5.+6").unwrap(), "0000000000005.00006");
}

#[test]
fn normalize_is_idempotent() {
    for input in ["1234", "123456.789", "1661564013555.00003", "0", "9999999999999.99999"] {
        let once = normalize_item_time(input).unwrap();
        let twice = normalize_item_time(&once).unwrap();
        assert_eq!(once, twice);
    }
}

#[test]
fn normalize_of_plain_renderings_is_the_padded_text() {
    let bases: [u64; 6] = [0, 1, 9, 10, 1661564013555, 9_999_999_999_999];
    let slots: [u64; 5] = [0, 1, 10, 789, 99_999];
    for base in bases {
        for slot in slots {
            let input = format!("{}.{}", base, slot);
            let expected = format!("{:0>13}.{:0>5}", base, slot);
            assert_eq!(normalize_item_time(&input).unwrap(), expected);
        }
    }
}

#[test]
fn canonical_text_order_is_time_order() {
    let times: [(u64, u64); 8] = [
        (0, 0),
        (0, 1),
        (0, 99_999),
        (1, 0),
        (9, 5),
        (10, 0),
        (1661564013555, 3),
        (9_999_999_999_999, 99_999),
    ];
    for a in times {
        for b in times {
            let text_a = normalize_item_time(&format!("{}.{}", a.0, a.1)).unwrap();
            let text_b = normalize_item_time(&format!("{}.{}", b.0, b.1)).unwrap();
            assert_eq!(text_a < text_b, a < b);
            assert_eq!(text_a == text_b, a == b);
        }
    }
}

#[test]
fn normalize_refuses_more_than_one_dot() {
    let text = illegal_parameter(normalize_item_time("1.2.3"));
    assert_eq!(text, "invalid item time: '1.2.3'");
    let text = illegal_parameter(normalize_item_time("1..2"));
    assert_eq!(text, "invalid item time: '1..2'");
    let text = illegal_parameter(normalize_item_time(".."));
    assert_eq!(text, "invalid item time: '..'");
}

#[test]
fn normalize_refuses_what_is_no_number() {
    assert_eq!(
        illegal_parameter(normalize_item_time("1234567890x")),
        "invalid u64: '1234567890x'"
    );
    assert_eq!(illegal_parameter(normalize_item_time("")), "invalid u64: ''");
    assert_eq!(illegal_parameter(normalize_item_time("5.")), "invalid u64: ''");
    assert_eq!(illegal_parameter(normalize_item_time(".5")), "invalid u64: ''");
    assert_eq!(illegal_parameter(normalize_item_time("-5")), "invalid u64: '-5'");
    assert_eq!(illegal_parameter(normalize_item_time("+")), "invalid u64: '+'");
    assert_eq!(illegal_parameter(normalize_item_time("++5")), "invalid u64: '++5'");
    assert_eq!(illegal_parameter(normalize_item_time("5.x")), "invalid u64: 'x'");
    assert_eq!(illegal_parameter(normalize_item_time(" 5")), "invalid u64: ' 5'");
    assert_eq!(
        illegal_parameter(normalize_item_time("12\u{e9}.5")),
        "invalid u64: '12\u{e9}'"
    );
    assert_eq!(
        illegal_parameter(normalize_item_time("\u{663}")),
        "invalid u64: '\u{663}'"
    );
}

#[test]
fn normalize_refuses_a_number_beyond_u64() {
    assert_eq!(
        illegal_parameter(normalize_item_time("18446744073709551616")),
        "invalid u64: '18446744073709551616'"
    );
    assert_eq!(
        illegal_parameter(normalize_item_time("99999999999999999999999")),
        "invalid u64: '99999999999999999999999'"
    );
    assert_eq!(
        illegal_parameter(normalize_item_time("18446744073709551615")),
        "item time base ms may not be larger than 9999999999999: '18446744073709551615'"
    );
}

#[test]
fn normalize_refuses_a_base_or_slot_that_is_too_large() {
    assert_eq!(
        illegal_parameter(normalize_item_time("99999999999990")),
        "item time base ms may not be larger than 9999999999999: '99999999999990'"
    );
    assert_eq!(
        illegal_parameter(normalize_item_time("10000000000000")),
        "item time base ms may not be larger than 9999999999999: '10000000000000'"
    );
    assert_eq!(
        illegal_parameter(normalize_item_time("123456789.1234567")),
        "item time suffix may not be larger than 99999: '1234567'"
    );
    assert_eq!(
        illegal_parameter(normalize_item_time("1.100000")),
        "item time suffix may not be larger than 99999: '100000'"
    );
}

#[test]
fn normalize_reports_the_base_before_the_slot() {
    assert_eq!(
        illegal_parameter(normalize_item_time("x.y")),
        "invalid u64: 'x'"
    );
    assert_eq!(
        illegal_parameter(normalize_item_time("10000000000000.100000")),
        "item time base ms may not be larger than 9999999999999: '10000000000000'"
    );
}

#[test]
fn normalize_ms_pads_the_timestamp() {
    assert_eq!(normalize_item_time_ms(0).unwrap(), "0000000000000.00000");
    assert_eq!(normalize_item_time_ms(1234).unwrap(), "0000000001234.00000");
    assert_eq!(
        normalize_item_time_ms(1661564013555).unwrap(),
        "1661564013555.00000"
    );
    assert_eq!(
        normalize_item_time_ms(MAX_BASE_MS).unwrap(),
        "9999999999999.00000"
    );
}

#[test]
fn normalize_ms_refuses_a_timestamp_that_is_too_large() {
    assert_eq!(
        illegal_parameter(normalize_item_time_ms(MAX_BASE_MS + 1)),
        "item time base ms may not be larger than 9999999999999: '10000000000000'"
    );
    assert_eq!(
        illegal_parameter(normalize_item_time_ms(u64::MAX)),
        "item time base ms may not be larger than 9999999999999: '18446744073709551615'"
    );
}

#[test]
fn parse_bounded_int_checks_the_bound() {
    assert_eq!(parse_bounded_int("0", "suffix", MAX_SLOT).unwrap(), 0);
    assert_eq!(parse_bounded_int("99999", "suffix", MAX_SLOT).unwrap(), 99_999);
    assert_eq!(parse_bounded_int("007", "suffix", MAX_SLOT).unwrap(), 7);
    match parse_bounded_int("100000", "suffix", MAX_SLOT) {
        Err(Error {
            kind: Kind::IllegalParameter(text),
        }) => assert_eq!(
            text,
            "item time suffix may not be larger than 99999: '100000'"
        ),
        other => panic!("unexpected outcome: {:?}", other),
    }
    match parse_bounded_int("12a", "base ms", MAX_BASE_MS) {
        Err(Error {
            kind: Kind::IllegalParameter(text),
        }) => assert_eq!(text, "invalid u64: '12a'"),
        other => panic!("unexpected outcome: {:?}", other),
    }
}
