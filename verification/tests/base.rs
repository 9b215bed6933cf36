use hostinfo::base::attribute::{parse_attributes, Attribute};
use hostinfo::base::number::{parse_i32, parse_i64, parse_u8, parse_usize};
use hostinfo::base::table::{parse_table, Delimiter, Header, Mismatch, Schema};
use hostinfo::base::text::{
    blank, contains, lines, split, starts_with, to_chars, to_string, tokens, trim, trimmed,
};
use hostinfo::base::unit::parse_mem_size;

fn chars(s: &str) -> Vec<char> {
    s.chars().collect()
}

fn strings(pieces: Vec<Vec<char>>) -> Vec<String> {
    pieces.iter().map(|p| p.iter().collect()).collect()
}

#[test]
fn text_round_trip() {
    assert_eq!(to_chars("a\u{e9}\u{1F600}"), vec!['a', '\u{e9}', '\u{1F600}']);
    assert_eq!(to_string(&vec!['a', '\u{e9}', 'z']), "a\u{e9}z");
    assert_eq!(to_string(&Vec::new()), "");
}

#[test]
fn lines_follow_the_line_feed() {
    for text in ["", "a", "a\n", "a\n\nb", "\n", "a\r\nb\r", "a\rb\n", "\r\n\r\n", "x\n y \n"] {
        let expected: Vec<String> = text.lines().map(|l| l.to_string()).collect();
        assert_eq!(strings(lines(&chars(text))), expected, "{:?}", text);
    }
}

#[test]
fn split_keeps_empty_pieces() {
    for text in ["", "a", "a\tb", "\t", "a\t\tb\t", "\ta"] {
        let expected: Vec<String> = text.split('\t').map(|l| l.to_string()).collect();
        assert_eq!(strings(split(&chars(text), '\t')), expected, "{:?}", text);
    }
}

#[test]
fn tokens_are_runs_without_ascii_whitespace() {
    for text in ["", "a", "  a  b\tc\n", " \t ", "a\u{a0}b c", "a\x0bb\x0cc\rd"] {
        let expected: Vec<String> = text.split_ascii_whitespace().map(|l| l.to_string()).collect();
        assert_eq!(strings(tokens(&chars(text))), expected, "{:?}", text);
    }
}

#[test]
fn trim_removes_unicode_whitespace() {
    for text in ["", " ", "a", "  a b \t\n", "\u{a0}x\u{3000}", "\x0bq\x0c", "\u{200b}z", "\u{85}\u{2028}"] {
        assert_eq!(trimmed(text), text.trim(), "{:?}", text);
        let out: String = trim(&chars(text)).iter().collect();
        assert_eq!(out, text.trim());
        assert_eq!(blank(&chars(text)), text.trim().is_empty());
    }
}

#[test]
fn contains_and_starts_with() {
    for (hay, needle) in [("", ""), ("abc", ""), ("abc", "bc"), ("abc", "abcd"), ("abc", "ac"), ("aab", "ab"), ("", "a")] {
        assert_eq!(contains(&chars(hay), &chars(needle)), hay.contains(needle), "{:?} {:?}", hay, needle);
        assert_eq!(starts_with(&chars(hay), &chars(needle)), hay.starts_with(needle));
    }
}

#[test]
fn numbers_follow_the_decimal_grammar() {
    for text in ["", "0", "-0", "+0", "+", "-", "12", "-12", "+12", "007", "1 ", " 1", "1_0", "0x10", "--1", "+-1", "2147483647", "2147483648", "-2147483648", "-2147483649", "255", "256", "9223372036854775807", "9223372036854775808", "-9223372036854775808", "18446744073709551615", "18446744073709551616", "00000000000000000000000000001", "\u{661}"] {
        assert_eq!(parse_i32(text), text.parse::<i32>().ok(), "{:?}", text);
        assert_eq!(parse_i64(text), text.parse::<i64>().ok(), "{:?}", text);
        assert_eq!(parse_u8(text), text.parse::<u8>().ok(), "{:?}", text);
        assert_eq!(parse_usize(text), text.parse::<usize>().ok(), "{:?}", text);
    }
}

#[test]
fn mem_size_units_and_limits() {
    assert_eq!(parse_mem_size("1g"), Some(1 << 30));
    assert_eq!(parse_mem_size("2T"), Some(2 << 40));
    assert_eq!(parse_mem_size("3b"), Some(3));
    assert_eq!(parse_mem_size("4k5"), Some(40965));
    assert_eq!(parse_mem_size("k"), Some(0));
    assert_eq!(parse_mem_size(" "), Some(0));
    assert_eq!(parse_mem_size("4x"), None);
    assert_eq!(parse_mem_size("4\nk"), None);
    assert_eq!(parse_mem_size("-4"), None);
    assert_eq!(parse_mem_size("9223372036854775807"), Some(i64::MAX));
    assert_eq!(parse_mem_size("9223372036854775808"), None);
    assert_eq!(parse_mem_size("8388608T"), None);
    assert_eq!(parse_mem_size("8388607T"), Some(8388607 << 40));
    assert_eq!(parse_mem_size("99999999999999999999x"), None);
}

fn schema(delimiter: Delimiter, columns: usize, open_ended: bool, header: Header) -> Schema {
    Schema { delimiter, columns, open_ended, header }
}

#[test]
fn table_rows_in_source_order() {
    let s = schema(Delimiter::Whitespace, 3, false, Header::Sentinel("Iface"));
    let rows = parse_table("Iface a b\n\n x  y z \n \t \n1 2 3", &s).unwrap();
    assert_eq!(rows, vec![vec!["x", "y", "z"], vec!["1", "2", "3"]]);
    assert_eq!(parse_table("", &s), Ok(Vec::new()));
    assert_eq!(parse_table("Iface a b\n", &s), Ok(Vec::new()));
}

#[test]
fn table_with_wrong_header_fails_whatever_the_rows() {
    let s = schema(Delimiter::Whitespace, 3, false, Header::Sentinel("Iface"));
    assert_eq!(parse_table("Iface a\nx y z\n", &s), Err(Mismatch { line: 0 }));
    assert_eq!(parse_table("Iface a b c\n", &s), Err(Mismatch { line: 0 }));
    assert_eq!(parse_table("x y z\n\nIface a\n", &s), Err(Mismatch { line: 2 }));
}

#[test]
fn table_rows_must_have_the_declared_width() {
    let s = schema(Delimiter::Tab, 2, false, Header::Absent);
    assert_eq!(parse_table("a\tb\nc\n", &s), Err(Mismatch { line: 1 }));
    assert_eq!(parse_table("a\tb\tc\n", &s), Err(Mismatch { line: 0 }));
    assert_eq!(parse_table("a\t\n\tb\n", &s), Ok(vec![vec!["a".to_string(), String::new()], vec![String::new(), "b".to_string()]]));
    let open = schema(Delimiter::Whitespace, 2, true, Header::Absent);
    assert_eq!(parse_table("a b c d\ne f\n", &open), Ok(vec![vec!["a".to_string(), "b".to_string()], vec!["e".to_string(), "f".to_string()]]));
    assert_eq!(parse_table("a b c d\ne\n", &open), Err(Mismatch { line: 1 }));
}

#[test]
fn table_decoration_is_passed_over_unchecked() {
    let s = schema(Delimiter::Whitespace, 2, false, Header::Decoration('|'));
    assert_eq!(parse_table("a | b | c\nx y\n", &s), Ok(vec![vec!["x".to_string(), "y".to_string()]]));
}

fn fact(key: &str, value: &str) -> Attribute {
    Attribute { key: key.to_string(), value: value.to_string() }
}

#[test]
fn attributes_split_on_the_first_equals_sign() {
    assert_eq!(
        parse_attributes("A=1\nnothing\nB = x=y \n=v\nC=\n", None),
        vec![fact("A", "1"), fact("B ", "x=y"), fact("", "v"), fact("C", "")]
    );
    assert_eq!(
        parse_attributes("E:A=1\nA=2\nE:B\nN:C=3\n E:D=4\nE:E= 5\r\n", Some("E:")),
        vec![fact("A", "1"), fact("E", "5")]
    );
    assert_eq!(parse_attributes("", Some("E:")), Vec::new());
    assert_eq!(parse_attributes("A=1", Some("")), vec![fact("A", "1")]);
}

#[test]
fn parsing_twice_gives_the_same_rows() {
    let s = schema(Delimiter::Tab, 2, false, Header::Absent);
    assert_eq!(parse_table("a\tb\nc\td\n", &s), parse_table("a\tb\nc\td\n", &s));
    assert_eq!(parse_attributes("A=1\n", None), parse_attributes("A=1\n", None));
}
