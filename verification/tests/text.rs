use pla2html::pla::text::{
    first_token, lines, parse_u32, split, split_either, text_equals, to_chars, trim, trim_start,
};

#[test]
fn a_number_is_an_optional_plus_sign_and_digits() {
    assert_eq!(Some(0), parse_u32("0"));
    assert_eq!(Some(202), parse_u32("202"));
    assert_eq!(Some(22), parse_u32("22"));
    assert_eq!(Some(7), parse_u32("007"));
    assert_eq!(Some(5), parse_u32("+5"));
    assert_eq!(Some(4294967295), parse_u32("4294967295"));
    assert_eq!(Some(4294967295), parse_u32("+0004294967295"));
}

#[test]
fn what_is_no_number_is_refused() {
    assert_eq!(None, parse_u32(""));
    assert_eq!(None, parse_u32("+"));
    assert_eq!(None, parse_u32("-1"));
    assert_eq!(None, parse_u32("++1"));
    assert_eq!(None, parse_u32(" 1"));
    assert_eq!(None, parse_u32("1 "));
    assert_eq!(None, parse_u32("1_000"));
    assert_eq!(None, parse_u32("abc"));
    assert_eq!(None, parse_u32("12a"));
    assert_eq!(None, parse_u32("1.5"));
    assert_eq!(None, parse_u32("١٢٣"));
    assert_eq!(None, parse_u32("4294967296"));
    assert_eq!(None, parse_u32("99999999999"));
    assert_eq!(None, parse_u32("99999999999999999999999999999999"));
    assert_eq!(None, parse_u32("4294967296x"));
}

#[test]
fn numbers_are_read_as_the_standard_library_reads_them() {
    let samples = vec![
        "", "+", "-", "0", "+0", "-0", "1", "10", "0010", "+12", "12+", "4294967295",
        "4294967296", "42949672950", "18446744073709551616", "1e3", "0x10", "٣", " 7", "7\n",
    ];
    for sample in samples {
        assert_eq!(sample.parse::<u32>().ok(), parse_u32(sample), "on {:?}", sample);
    }
}

#[test]
fn splitting_keeps_empty_pieces() {
    assert_eq!(vec!["start", "2021-01-15", "15"], split("start 2021-01-15 15", ' '));
    assert_eq!(vec!["start"], split("start", ' '));
    assert_eq!(vec![""], split("", ' '));
    assert_eq!(vec!["", ""], split(" ", ' '));
    assert_eq!(vec!["a", "", "b"], split("a  b", ' '));
    assert_eq!(vec!["", "a", ""], split(" a ", ' '));
    assert_eq!(vec!["a\tb"], split("a\tb", ' '));
    assert_eq!(vec!["one", "two\r", "", "three"], split("one\ntwo\r\n\nthree", '\n'));
    assert_eq!(vec!["größe", "5"], split("größe 5", ' '));
}

#[test]
fn splitting_agrees_with_the_standard_library() {
    let samples = vec!["", " ", "a", "a b", " a  b ", "child 202", "x\ny\n", "é è  ê"];
    for sample in samples {
        let expected: Vec<String> = sample.split(' ').map(|s| String::from(s)).collect();
        assert_eq!(expected, split(sample, ' '));
        let lines: Vec<String> = sample.split("\n").map(|s| String::from(s)).collect();
        assert_eq!(lines, split(sample, '\n'));
    }
}

#[test]
fn trimming_takes_white_space_from_the_ends_only() {
    assert_eq!("a b", trim("  a b \t\r\n"));
    assert_eq!("", trim(""));
    assert_eq!("", trim(" \t \n"));
    assert_eq!("x", trim("x"));
    assert_eq!("[1] a", trim("\u{a0}\u{3000}[1] a\u{2003}"));
    assert_eq!("a b \t", trim_start("  a b \t"));
    assert_eq!("", trim_start("   "));
    assert_eq!("é", trim(" é "));
}

#[test]
fn trimming_agrees_with_the_standard_library() {
    let samples = vec!["", " ", "a", " a", "a ", "\ta b\r\n", "\u{85}x\u{2028}", "  é è  "];
    for sample in samples {
        assert_eq!(sample.trim(), trim(sample));
        assert_eq!(sample.trim_start(), trim_start(sample));
    }
}

#[test]
fn the_first_token_ends_at_the_first_white_space() {
    assert_eq!("start", first_token("start 2021-01-15 15"));
    assert_eq!("start", first_token("start\t2021-01-15"));
    assert_eq!("start", first_token("start"));
    assert_eq!("", first_token(""));
    assert_eq!("", first_token(" start"));
    assert_eq!("übermorgen", first_token("übermorgen früh"));
}

#[test]
fn texts_are_compared_character_by_character() {
    assert!(text_equals("", ""));
    assert!(text_equals("child", "child"));
    assert!(!text_equals("child", "chile"));
    assert!(!text_equals("child", "children"));
    assert!(!text_equals("child", "Child"));
    assert!(text_equals("größe", "größe"));
    assert_eq!(vec!['a', 'ß', '越'], to_chars("aß越"));
}

#[test]
fn a_text_breaks_into_lines_at_line_feeds_and_carriage_returns() {
    assert_eq!(vec!["one", "two", "three"], lines("one\ntwo\nthree"));
    assert_eq!(vec!["one", "two", "three"], lines("one\rtwo\rthree"));
    assert_eq!(vec!["one", "", "two", "", ""], lines("one\r\ntwo\r\n"));
    assert_eq!(vec!["one", ""], lines("one\n"));
    assert_eq!(vec![""], lines(""));
    assert_eq!(vec!["no break at all"], lines("no break at all"));
    assert_eq!(vec!["tab\tand\u{2028}separator"], lines("tab\tand\u{2028}separator"));
}

#[test]
fn a_text_is_split_at_either_of_two_characters() {
    assert_eq!(vec!["a", "b", "c"], split_either("a,b;c", ',', ';'));
    assert_eq!(vec!["a", "", "b"], split_either("a;,b", ',', ';'));
    assert_eq!(vec!["a,b"], split_either("a,b", ';', ';'));
    assert_eq!(split("a b  c", ' '), split_either("a b  c", ' ', ' '));
}
