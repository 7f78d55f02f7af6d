use video_utils::rate::{
    cap_above_ten, cap_from_ten, divide, frames_seek_text, millis_seek_text, parse_decimal,
    parse_frame_rate, push_rate, read_decimal, Ratio,
};
use video_utils::text::{
    chars_of, parse_unsigned, push_decimal, push_signed_decimal, split_chars, string_of,
};

fn ratio(num: u64, den: u64) -> Ratio {
    Ratio { num, den }
}

fn pieces(s: &str, sep: char) -> Vec<String> {
    split_chars(&chars_of(s), sep).iter().map(string_of).collect()
}

#[test]
fn chars_and_strings_round_trip() {
    let chars = chars_of("a-é");
    assert_eq!(chars, vec!['a', '-', 'é']);
    assert_eq!(string_of(&chars), "a-é");
}

#[test]
fn decimal_notation_of_naturals() {
    let mut out = String::from("n=");
    push_decimal(&mut out, 0);
    assert_eq!(out, "n=0");
    let mut out = String::new();
    push_decimal(&mut out, 340282366920938463463374607431768211455);
    assert_eq!(out, "340282366920938463463374607431768211455");
    let mut out = String::new();
    push_decimal(&mut out, 1209);
    assert_eq!(out, "1209");
}

#[test]
fn decimal_notation_of_signed_numbers() {
    let mut out = String::new();
    push_signed_decimal(&mut out, -42);
    assert_eq!(out, "-42");
    let mut out = String::new();
    push_signed_decimal(&mut out, i128::MIN);
    assert_eq!(out, "-170141183460469231731687303715884105728");
    let mut out = String::new();
    push_signed_decimal(&mut out, 7);
    assert_eq!(out, "7");
}

#[test]
fn unsigned_numbers_are_plain_digit_runs() {
    assert_eq!(parse_unsigned(&chars_of("30000")), Some(30000));
    assert_eq!(parse_unsigned(&chars_of("007")), Some(7));
    assert_eq!(parse_unsigned(&chars_of("")), None);
    assert_eq!(parse_unsigned(&chars_of("+5")), None);
    assert_eq!(parse_unsigned(&chars_of("12a")), None);
    assert_eq!(parse_unsigned(&chars_of("1.5")), None);
    assert_eq!(parse_unsigned(&chars_of("18446744073709551615")), Some(u64::MAX));
    assert_eq!(parse_unsigned(&chars_of("18446744073709551616")), None);
    assert_eq!(parse_unsigned(&chars_of("99999999999999999999999")), None);
}

#[test]
fn splitting_keeps_empty_pieces() {
    assert_eq!(pieces("", '/'), vec![""]);
    assert_eq!(pieces("a", '/'), vec!["a"]);
    assert_eq!(pieces("a/b", '/'), vec!["a", "b"]);
    assert_eq!(pieces("/a//b/", '/'), vec!["", "a", "", "b", ""]);
}

#[test]
fn frame_rate_ratio_parses_exactly() {
    let rate = parse_frame_rate("30000/1001").unwrap();
    assert_eq!(rate, ratio(30000, 1001));
    let value = rate.num as f64 / rate.den as f64;
    assert!((value - 29.97).abs() < 0.001);
    assert_eq!(parse_frame_rate("30/1"), Some(ratio(30, 1)));
    assert_eq!(parse_frame_rate("0/5"), Some(ratio(0, 5)));
    assert_eq!(divide(ratio(3, 4), ratio(5, 7)), Some(ratio(21, 20)));
    assert_eq!(divide(ratio(3, 4), ratio(0, 7)), None);
    assert_eq!(divide(ratio(u64::MAX, 1), ratio(1, 2)), None);
    assert_eq!(divide(ratio(1, u64::MAX), ratio(2, 1)), None);
}

#[test]
fn frame_rate_ratio_pieces_may_be_decimal() {
    assert_eq!(parse_frame_rate("29.97/1"), Some(ratio(2997, 100)));
    assert_eq!(parse_frame_rate("1/0.5"), Some(ratio(10, 5)));
    assert_eq!(parse_frame_rate("30./1.0"), Some(ratio(300, 10)));
    assert_eq!(parse_frame_rate("30/0.0"), None);
    assert_eq!(parse_frame_rate("-30/1"), None);
    assert_eq!(parse_frame_rate("nan/1"), None);
    assert_eq!(parse_frame_rate("inf/1"), None);
    assert_eq!(parse_frame_rate("18446744073709551615/0.1"), None);
}

#[test]
fn frame_rate_ratio_rejects_zero_denominator_and_malformed() {
    assert_eq!(parse_frame_rate("0/0"), None);
    assert_eq!(parse_frame_rate("30/0"), None);
    assert_eq!(parse_frame_rate(""), None);
    assert_eq!(parse_frame_rate("30"), None);
    assert_eq!(parse_frame_rate("abc"), None);
    assert_eq!(parse_frame_rate("30/1/2"), None);
    assert_eq!(parse_frame_rate("a/b"), None);
    assert_eq!(parse_frame_rate("30/"), None);
}

#[test]
fn frame_rate_ratio_needs_exactly_two_pieces() {
    assert_eq!(parse_frame_rate("x/30/1"), None);
    assert_eq!(parse_frame_rate("x/5/2"), None);
    assert_eq!(parse_frame_rate("30//1"), None);
    assert_eq!(parse_frame_rate("/30/1"), None);
    assert_eq!(parse_frame_rate("30/1/"), None);
}

#[test]
fn decimal_numbers_parse_exactly() {
    assert_eq!(parse_decimal("12.345000"), Some(ratio(12345000, 1000000)));
    assert_eq!(parse_decimal("10"), Some(ratio(10, 1)));
    assert_eq!(parse_decimal("5."), Some(ratio(5, 1)));
    assert_eq!(parse_decimal(".5"), Some(ratio(5, 10)));
    assert_eq!(parse_decimal("0.0000000000000000001"), Some(ratio(1, 10000000000000000000)));
}

#[test]
fn decimal_numbers_are_read_from_characters() {
    assert_eq!(read_decimal(&chars_of("2.50")), Some(ratio(250, 100)));
    assert_eq!(read_decimal(&chars_of("x")), None);
}

#[test]
fn decimal_numbers_reject_other_text() {
    assert_eq!(parse_decimal(""), None);
    assert_eq!(parse_decimal("."), None);
    assert_eq!(parse_decimal("N/A"), None);
    assert_eq!(parse_decimal("1.2.3"), None);
    assert_eq!(parse_decimal("-1.0"), None);
    assert_eq!(parse_decimal("1e3"), None);
    assert_eq!(parse_decimal("0.00000000000000000001"), None);
    assert_eq!(parse_decimal("99999999999999999999.5"), None);
}

#[test]
fn millisecond_offsets_become_seconds_with_three_decimals() {
    assert_eq!(millis_seek_text(500), "0.500");
    assert_eq!(millis_seek_text(0), "0.000");
    assert_eq!(millis_seek_text(1), "0.001");
    assert_eq!(millis_seek_text(1500), "1.500");
    assert_eq!(millis_seek_text(123456789), "123456.789");
    assert_eq!(millis_seek_text(-1), "-0.001");
    assert_eq!(millis_seek_text(-2050), "-2.050");
    assert_eq!(millis_seek_text(i64::MAX), "9223372036854775.807");
    assert_eq!(millis_seek_text(i64::MIN), "-9223372036854775.808");
}

#[test]
fn frame_index_is_multiplied_by_the_rate() {
    assert_eq!(frames_seek_text(5, ratio(1, 1)), "5.000");
    assert_eq!(frames_seek_text(3, ratio(5, 1)), "15.000");
    assert_eq!(frames_seek_text(7, ratio(30000, 1001)), "209.790");
    assert_eq!(frames_seek_text(1, ratio(2, 3)), "0.667");
    assert_eq!(frames_seek_text(-1, ratio(2, 3)), "-0.667");
    assert_eq!(frames_seek_text(0, ratio(9, 2)), "0.000");
    assert_eq!(frames_seek_text(-4, ratio(0, 7)), "0.000");
    assert_eq!(frames_seek_text(1, ratio(1999, 2000)), "1.000");
    assert_eq!(frames_seek_text(1, ratio(19999, 20000)), "1.000");
}

#[test]
fn half_way_seek_positions_go_to_the_even_neighbour() {
    assert_eq!(frames_seek_text(1, ratio(1, 16)), "0.062");
    assert_eq!(frames_seek_text(3, ratio(1, 16)), "0.188");
    assert_eq!(frames_seek_text(1, ratio(1, 2000)), "0.000");
    assert_eq!(frames_seek_text(-1, ratio(1, 2000)), "0.000");
    assert_eq!(frames_seek_text(3, ratio(1, 2000)), "0.002");
}

#[test]
fn seek_positions_cover_the_extremes() {
    assert_eq!(
        frames_seek_text(i64::MIN, ratio(u64::MAX, 1)),
        "-170141183460469231722463931679029329920.000"
    );
    assert_eq!(frames_seek_text(i64::MAX, ratio(1, u64::MAX)), "0.500");
}

#[test]
fn rates_are_capped_at_ten() {
    assert_eq!(cap_from_ten(ratio(30, 1)), ratio(1, 1));
    assert_eq!(cap_from_ten(ratio(10, 1)), ratio(1, 1));
    assert_eq!(cap_from_ten(ratio(20, 2)), ratio(1, 1));
    assert_eq!(cap_from_ten(ratio(19, 2)), ratio(19, 2));
    assert_eq!(cap_above_ten(ratio(10, 1)), ratio(10, 1));
    assert_eq!(cap_above_ten(ratio(21, 2)), ratio(1, 1));
    assert_eq!(cap_above_ten(ratio(5, 1)), ratio(5, 1));
    assert_eq!(cap_above_ten(ratio(u64::MAX, u64::MAX)), ratio(u64::MAX, u64::MAX));
}

#[test]
fn rates_are_written_as_whole_numbers_or_ratios() {
    let mut out = String::from("fps=");
    push_rate(&mut out, ratio(1, 1));
    assert_eq!(out, "fps=1");
    let mut out = String::new();
    push_rate(&mut out, ratio(15, 2));
    assert_eq!(out, "15/2");
}
