use openai_whisper::json::read_string_member;
use openai_whisper::status::ReplyStatus;
use openai_whisper::text::{is_whitespace, trim};

#[test]
fn whitespace_is_the_unicode_property() {
    for code in 0u32..=0x10_ffff {
        if let Some(c) = char::from_u32(code) {
            assert_eq!(is_whitespace(c), c.is_whitespace(), "U+{:04X}", code);
        }
    }
}

#[test]
fn trim_removes_the_white_space_around() {
    assert_eq!(trim("  hello world  "), "hello world");
    assert_eq!(trim("hello"), "hello");
    assert_eq!(trim(""), "");
    assert_eq!(trim(" \t\r\n"), "");
    assert_eq!(trim("\n a  b \u{3000}"), "a  b");
    assert_eq!(trim("\u{a0}\u{2003}été\u{2028}"), "été");
    assert_eq!(trim("x "), "x");
    assert_eq!(trim(" x"), "x");
}

#[test]
fn trim_keeps_inner_white_space_and_other_characters() {
    assert_eq!(trim("\u{200b}a\u{200b}"), "\u{200b}a\u{200b}");
    assert_eq!(trim("a \n b"), "a \n b");
    assert_eq!(trim("\u{feff}a"), "\u{feff}a");
}

#[test]
fn trim_agrees_with_std() {
    let pieces = [
        "", " ", "\t", "\n", "\u{85}", "\u{a0}", "\u{1680}", "\u{2000}", "\u{200a}", "\u{2028}",
        "\u{2029}", "\u{202f}", "\u{205f}", "\u{3000}", "a", "é", "日本", "\u{200b}", "\u{180e}",
        "\u{1f600}", "x y",
    ];
    for head in pieces {
        for middle in pieces {
            for tail in pieces {
                let text = format!("{}{}{}", head, middle, tail);
                assert_eq!(trim(&text), text.trim(), "{:?}", text);
            }
        }
    }
}

#[test]
fn status_codes_run_from_100_to_999() {
    assert!(ReplyStatus::from_u16(0).is_none());
    assert!(ReplyStatus::from_u16(99).is_none());
    assert!(ReplyStatus::from_u16(1000).is_none());
    assert!(ReplyStatus::from_u16(u16::MAX).is_none());
    for code in 100u16..=999 {
        let status = ReplyStatus::from_u16(code).unwrap();
        assert_eq!(status.as_u16(), code);
        assert_eq!(status.succeeded(), (200..300).contains(&code));
    }
}

#[test]
fn status_is_written_with_its_reason() {
    assert_eq!(ReplyStatus::from_u16(200).unwrap().describe(), "200 OK");
    assert_eq!(ReplyStatus::from_u16(401).unwrap().describe(), "401 Unauthorized");
    assert_eq!(ReplyStatus::from_u16(429).unwrap().describe(), "429 Too Many Requests");
    assert_eq!(ReplyStatus::from_u16(500).unwrap().describe(), "500 Internal Server Error");
    assert_eq!(ReplyStatus::from_u16(999).unwrap().describe(), "999 <unknown status code>");
}

#[test]
fn status_text_begins_with_the_decimal_code() {
    for code in 100u16..=999 {
        let text = ReplyStatus::from_u16(code).unwrap().describe();
        let digits = format!("{} ", code);
        assert!(text.starts_with(&digits), "{}", text);
        assert!(text.len() > digits.len());
    }
}

#[test]
fn string_member_is_read_from_an_object() {
    assert_eq!(
        read_string_member(b"{\"text\": \"  hello world  \"}", "text"),
        Ok(Some("  hello world  ".to_string()))
    );
    assert_eq!(
        read_string_member(b"{\"a\": 1, \"text\": \"caf\\u00e9\", \"b\": null}", "text"),
        Ok(Some("café".to_string()))
    );
    assert_eq!(read_string_member(b"{\"text\": \"x\"}", "other"), Ok(None));
    assert_eq!(read_string_member(b"{\"text\": \"\"}", "text"), Ok(Some(String::new())));
}

#[test]
fn string_member_is_absent_where_it_is_no_string() {
    assert_eq!(read_string_member(b"{}", "text"), Ok(None));
    assert_eq!(read_string_member(b"{\"text\": 3}", "text"), Ok(None));
    assert_eq!(read_string_member(b"{\"text\": null}", "text"), Ok(None));
    assert_eq!(read_string_member(b"{\"text\": [\"a\"]}", "text"), Ok(None));
    assert_eq!(read_string_member(b"{\"text\": {\"text\": \"a\"}}", "text"), Ok(None));
    assert_eq!(read_string_member(b"[\"text\"]", "text"), Ok(None));
    assert_eq!(read_string_member(b"\"text\"", "text"), Ok(None));
    assert_eq!(read_string_member(b"17", "text"), Ok(None));
    assert_eq!(read_string_member(b"null", "text"), Ok(None));
}

#[test]
fn invalid_json_gives_the_parser_message() {
    let empty = read_string_member(b"", "text").unwrap_err();
    assert!(empty.contains("EOF"), "{}", empty);
    let html = read_string_member(b"<html>", "text").unwrap_err();
    assert!(html.contains("line 1 column 1"), "{}", html);
    let trailing = read_string_member(b"{\"text\": \"a\"} x", "text").unwrap_err();
    assert!(trailing.contains("trailing characters"), "{}", trailing);
    assert!(read_string_member(b"{\"text\": \"a\"", "text").is_err());
    assert!(read_string_member(&[0xff, 0xfe], "text").is_err());
}
