use thermagentd::metrics::escape_label;
use thermagentd::numbers::{parse_u64, parse_u8};
use thermagentd::telemetry::read_trim;

fn samples() -> Vec<&'static str> {
    vec![
        "", "0", "00", "+0", "+", "-", "-0", "1", "+12", "255", "256", "0255", "1000", " 7",
        "7 ", "1_0", "x", "18446744073709551615", "18446744073709551616", "99999999999999999999",
        "\u{a0}1", "１",
    ]
}

#[test]
fn unsigned_parsing_agrees_with_str_parse() {
    for s in samples() {
        assert_eq!(parse_u8("k", s).ok(), s.parse::<u8>().ok(), "u8 {:?}", s);
        assert_eq!(parse_u64("k", s).ok(), s.parse::<u64>().ok(), "u64 {:?}", s);
    }
}

#[test]
fn trimming_agrees_with_str_trim() {
    let texts = [
        "  a b  ", "\t\n\r x \u{0b}\u{0c}", "\u{85}\u{a0}y\u{1680}", "\u{2000}\u{200a}z\u{2028}\u{2029}",
        "\u{202f}\u{205f}w\u{3000}", "\u{200b}v\u{200b}", "\u{feff}u", "plain", "", "   ",
    ];
    for t in texts {
        let expected = if t.trim().is_empty() { None } else { Some(t.trim().to_string()) };
        assert_eq!(read_trim(Some(t)), expected, "{:?}", t);
    }
}

#[test]
fn escaping_agrees_with_chained_replacement() {
    for s in ["", "a", "\\", "\"", "\n", "a\\\"b\nc\\n", "\\\\\"\"\n\n", "é\"ü"] {
        let expected = s.replace('\\', "\\\\").replace('"', "\\\"").replace('\n', "\\n");
        assert_eq!(escape_label(s), expected);
    }
}
