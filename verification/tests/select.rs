use playback_connect::select::{chars_of, parse_unsigned, select_index, trim_bounds, white_space};
use playback_connect::text::render_decimal;

#[test]
fn decimal_text_of_numbers() {
    assert_eq!(render_decimal(0), "0");
    assert_eq!(render_decimal(7), "7");
    assert_eq!(render_decimal(10), "10");
    assert_eq!(render_decimal(12345), "12345");
    assert_eq!(render_decimal(usize::MAX), usize::MAX.to_string());
    for n in 0..2000usize {
        assert_eq!(render_decimal(n), n.to_string());
    }
}

#[test]
fn white_space_is_what_the_standard_library_calls_so() {
    for code in 0..=0x10FFFFu32 {
        if let Some(c) = char::from_u32(code) {
            assert_eq!(white_space(c), c.is_whitespace(), "U+{:04X}", code);
        }
    }
}

#[test]
fn characters_come_in_order() {
    assert_eq!(chars_of(""), Vec::<char>::new());
    assert_eq!(chars_of("a\u{e9}\u{3000}1"), vec!['a', '\u{e9}', '\u{3000}', '1']);
}

#[test]
fn trimming_finds_the_text() {
    assert_eq!(trim_bounds(&chars_of("")), (0, 0));
    assert_eq!(trim_bounds(&chars_of("   ")), (3, 3));
    assert_eq!(trim_bounds(&chars_of("12")), (0, 2));
    assert_eq!(trim_bounds(&chars_of(" \t12\r\n")), (2, 4));
    assert_eq!(trim_bounds(&chars_of("1 2 ")), (0, 3));
}

#[test]
fn unsigned_numbers_are_read() {
    assert_eq!(parse_unsigned("0"), Some(0));
    assert_eq!(parse_unsigned("1"), Some(1));
    assert_eq!(parse_unsigned("007"), Some(7));
    assert_eq!(parse_unsigned("+5"), Some(5));
    assert_eq!(parse_unsigned("42"), Some(42));
    assert_eq!(parse_unsigned(&usize::MAX.to_string()), Some(usize::MAX));
}

#[test]
fn what_is_no_unsigned_number_is_refused() {
    assert_eq!(parse_unsigned(""), None);
    assert_eq!(parse_unsigned("+"), None);
    assert_eq!(parse_unsigned("-"), None);
    assert_eq!(parse_unsigned("-1"), None);
    assert_eq!(parse_unsigned("-0"), None);
    assert_eq!(parse_unsigned("++1"), None);
    assert_eq!(parse_unsigned("1+"), None);
    assert_eq!(parse_unsigned(" 1"), None);
    assert_eq!(parse_unsigned("1 "), None);
    assert_eq!(parse_unsigned("12a"), None);
    assert_eq!(parse_unsigned("a12"), None);
    assert_eq!(parse_unsigned("1.0"), None);
    assert_eq!(parse_unsigned("0x10"), None);
    assert_eq!(parse_unsigned("\u{661}"), None);
    assert_eq!(parse_unsigned("18446744073709551616"), None);
    assert_eq!(parse_unsigned("99999999999999999999999999"), None);
}

#[test]
fn reading_agrees_with_the_standard_library() {
    let max = usize::MAX.to_string();
    let over = format!("{}0", max);
    let inputs = [
        "", "0", "00", "1", "+1", "-1", "+", "-", "+-1", "1_000", "\u{661}", "\u{ff11}", "9", "10", "4294967295",
        "4294967296", "18446744073709551615", "18446744073709551616", "18446744073709551620",
        max.as_str(), over.as_str(), " 3", "3\n", "three", "3e2", "+0", "+00009",
    ];
    for input in inputs {
        assert_eq!(parse_unsigned(input), input.parse::<usize>().ok(), "{:?}", input);
    }
}

#[test]
fn a_line_in_range_picks_its_device() {
    assert_eq!(select_index("0", 1), Some(0));
    assert_eq!(select_index("1", 2), Some(1));
    assert_eq!(select_index("1\n", 2), Some(1));
    assert_eq!(select_index("1\r\n", 2), Some(1));
    assert_eq!(select_index("  +1\t\n", 2), Some(1));
    assert_eq!(select_index("\u{3000}001\u{a0}", 2), Some(1));
    assert_eq!(select_index("41", 42), Some(41));
}

#[test]
fn a_line_out_of_range_or_no_number_picks_nothing() {
    assert_eq!(select_index("0", 0), None);
    assert_eq!(select_index("2", 2), None);
    assert_eq!(select_index("3\n", 2), None);
    assert_eq!(select_index("", 2), None);
    assert_eq!(select_index("\n", 2), None);
    assert_eq!(select_index("abc\n", 2), None);
    assert_eq!(select_index("-1\n", 2), None);
    assert_eq!(select_index("1 0\n", 20), None);
    assert_eq!(select_index("1.5\n", 2), None);
    assert_eq!(select_index("18446744073709551616\n", usize::MAX), None);
    assert_eq!(select_index(&usize::MAX.to_string(), usize::MAX), None);
}

#[test]
fn choosing_agrees_with_the_standard_library() {
    let inputs = [
        "", "\n", " ", "0", "0\n", " 0 ", "1\n", "+1\n", "2\n", "3\n", "10\n", "-0\n", "one\n",
        "\u{2003}2\u{2028}", "\u{feff}1", "\u{200b}1", "1\u{0}", "\u{85}1\u{1680}", "1\n2\n",
        "18446744073709551615\n", "18446744073709551616\n",
    ];
    for count in [0usize, 1, 2, 3, 11, usize::MAX] {
        for input in inputs {
            let expected = match input.trim().parse::<usize>() {
                Ok(index) if index < count => Some(index),
                _ => None,
            };
            assert_eq!(select_index(input, count), expected, "{:?} among {}", input, count);
        }
    }
}

#[test]
fn every_listed_number_picks_its_own_device() {
    for count in [1usize, 2, 10, 11, 100, 1234] {
        for index in 0..count {
            assert_eq!(select_index(&render_decimal(index), count), Some(index));
        }
    }
}
