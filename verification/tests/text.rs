use werk1112::shell::{shell_join, split_args};
use werk1112::sse::{find_sse_boundary, SseAccumulator};
use werk1112::text::ascii::{same_ignoring_case, to_lower};
use werk1112::text::bytes::text_from_utf8;
use werk1112::text::chars::{chars_of, same_text, text_of};
use werk1112::text::lines::split_lines;
use werk1112::text::number::{decimal_text, parse_u64};
use werk1112::text::order::is_at_or_before;
use werk1112::text::search::{after_prefix, has_text, split_at_first, split_at_last};
use werk1112::text::space::{count_words, is_space_char, joined, split_words, trimmed};

fn samples() -> Vec<&'static str> {
    vec![
        "",
        " ",
        "a",
        "  a b\tc\n",
        "\u{a0}x\u{2003}y\u{3000}",
        "one\r\ntwo\n\nthree",
        "one\r\ntwo\r",
        "\n",
        "äÖ ß",
        "a:b:c/d/e",
        "+12",
        "\u{85}z",
    ]
}

#[test]
fn white_space_is_that_of_unicode() {
    for code in 0..=0x10ffff_u32 {
        if let Some(c) = char::from_u32(code) {
            assert_eq!(is_space_char(c), c.is_whitespace(), "{code:x}");
        }
    }
}

#[test]
fn trimming_and_splitting_agree_with_std() {
    for text in samples() {
        assert_eq!(trimmed(text), text.trim());
        let words: Vec<String> = text.split_whitespace().map(str::to_string).collect();
        assert_eq!(split_words(text), words);
        assert_eq!(count_words(text), words.len());
        let lines: Vec<String> = text.lines().map(str::to_string).collect();
        assert_eq!(split_lines(text), lines);
        assert_eq!(to_lower(text), text.to_ascii_lowercase());
        assert_eq!(text_of(&chars_of(text)), text);
        assert_eq!(joined(&words, " "), words.join(" "));
    }
}

#[test]
fn searching_agrees_with_std() {
    for text in samples() {
        for needle in ["", "a", "b", "\n", ":b", "three", "Ö ß"] {
            assert_eq!(has_text(text, needle), text.contains(needle));
            assert_eq!(
                after_prefix(text, needle),
                text.strip_prefix(needle).map(str::to_string)
            );
        }
        for separator in [':', '/', 'x', '\n'] {
            assert_eq!(
                split_at_first(text, separator),
                text.split_once(separator).map(|(a, b)| (a.to_string(), b.to_string()))
            );
            assert_eq!(
                split_at_last(text, separator),
                text.rsplit_once(separator).map(|(a, b)| (a.to_string(), b.to_string()))
            );
        }
    }
}

#[test]
fn comparing_agrees_with_std() {
    for left in samples() {
        for right in samples() {
            assert_eq!(same_text(left, right), left == right);
            assert_eq!(is_at_or_before(left, right), left <= right);
            assert_eq!(same_ignoring_case(left, right), left.eq_ignore_ascii_case(right));
        }
    }
    assert!(same_ignoring_case("RoCm", "rOcM"));
    assert!(!same_ignoring_case("Ä", "ä"));
}

#[test]
fn bytes_are_decoded() {
    for text in samples() {
        assert_eq!(text_from_utf8(text.as_bytes()), text);
    }
    assert_eq!(text_from_utf8(&[b'a', 0xff, b'b']), "a\u{fffd}b");
    assert_eq!(text_from_utf8(&[0xe2, 0x82]), "\u{fffd}");
}

#[test]
fn numbers_agree_with_std() {
    for number in [0, 9, 10, 99, 100, 12_345, u64::MAX] {
        assert_eq!(decimal_text(number), number.to_string());
        assert_eq!(parse_u64(&number.to_string()), Some(number));
    }
    for text in ["", "+", "+5", "-1", "1 ", "18446744073709551616", "007", "1x"] {
        assert_eq!(parse_u64(text), text.parse::<u64>().ok());
    }
}

#[test]
fn split_args_reads_quotes_and_escapes() {
    assert_eq!(split_args(""), Vec::<String>::new());
    assert_eq!(split_args("  a  b "), vec!["a", "b"]);
    assert_eq!(split_args("'a b' \"c d\""), vec!["a b", "c d"]);
    assert_eq!(split_args("a\\ b \\\"c"), vec!["a b", "\"c"]);
    assert_eq!(split_args("'it'\\''s'"), vec!["it's"]);
    assert_eq!(split_args("\"a'b\" ''"), vec!["a'b"]);
    assert_eq!(split_args("x\\"), vec!["x"]);
    assert_eq!(split_args("'open end"), vec!["open end"]);
    assert_eq!(split_args("a'b'c"), vec!["abc"]);
}

#[test]
fn shell_join_quotes_where_needed() {
    let args = vec!["--model".to_string(), "/a b".to_string(), "it's".to_string()];
    assert_eq!(shell_join(&args), "--model '/a b' 'it'\\''s'");
    assert_eq!(shell_join(&[]), "");
    assert_eq!(shell_join(&["a=b:c+d_e.f/g-1".to_string()]), "a=b:c+d_e.f/g-1");
}

#[test]
fn splitting_undoes_joining() {
    let args: Vec<String> =
        ["plain", "two words", "it's", "\"quoted\"", "tab\there", "ü", "'''"].map(String::from).to_vec();
    assert_eq!(split_args(&shell_join(&args)), args);
    let with_backslash = vec!["a\\b c".to_string()];
    assert_eq!(split_args(&shell_join(&with_backslash)), vec!["ab c"]);
    let with_empty = vec!["a".to_string(), String::new(), "b".to_string()];
    assert_eq!(split_args(&shell_join(&with_empty)), vec!["a", "b"]);
}

#[test]
fn sse_boundary_prefers_line_feeds() {
    assert_eq!(find_sse_boundary(b"a\n\nb"), Some(1));
    assert_eq!(find_sse_boundary(b"a\r\n\r\nb"), Some(1));
    assert_eq!(find_sse_boundary(b"a\r\n\r\nb\n\nc"), Some(6));
    assert_eq!(find_sse_boundary(b"a\nb"), None);
    assert_eq!(find_sse_boundary(b""), None);
}

#[test]
fn sse_gives_data_of_complete_events() {
    let mut sse = SseAccumulator::new();
    assert_eq!(sse.push(b"event: x\ndata:  one \ndata: tw"), Vec::<String>::new());
    assert_eq!(sse.push(b"o\n\n\n\nid: 5\ndata:three\r\n\r\ndata"), vec!["one", "two", "three"]);
    assert_eq!(sse.pending, b"data");
    assert_eq!(sse.push(b": \xff\n\n"), vec!["\u{fffd}"]);
    assert!(sse.pending.is_empty());
}

#[test]
fn pieces_of_a_stream_do_not_matter() {
    let stream: &[u8] =
        b"data: a\r\n\r\ndata: b\n\ndata: c\ndata: d\n\n\n\r\n: note\ndata: \xc3\xa9\r\n\r\n\r\ndata: e\n\ndata: f";
    let mut whole = SseAccumulator::new();
    let expected = whole.push(stream);
    assert_eq!(expected, vec!["a", "b", "c", "d", "é", "e"]);
    for first in 0..stream.len() {
        for second in first..stream.len() {
            let mut sse = SseAccumulator::new();
            let mut data = sse.push(&stream[..first]);
            data.extend(sse.push(&stream[first..second]));
            data.extend(sse.push(&stream[second..]));
            assert_eq!(data, expected);
        }
    }
}

#[test]
fn carriage_return_before_data_hides_it_unless_it_follows_an_event() {
    let mut at_once = SseAccumulator::new();
    assert_eq!(at_once.push(b"data: a\n\n\rdata: b\n\n"), vec!["a", "b"]);
    let mut in_pieces = SseAccumulator::new();
    assert_eq!(in_pieces.push(b"data: a\n\n"), vec!["a"]);
    assert_eq!(in_pieces.push(b"\rdata: b\n\n"), Vec::<String>::new());
}
