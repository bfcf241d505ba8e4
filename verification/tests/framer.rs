use serde_json::{Number, Value};
use wokwi_uart::json_parser::{resolve, FrameResult, JsonParser};

fn feed(parser: &mut JsonParser, text: &str) -> Vec<FrameResult> {
    let mut reports = Vec::new();
    for c in text.chars() {
        assert!(parser.depth() < i32::MAX);
        reports.push(parser.parse(c));
    }
    reports
}

fn empty_object() -> Value {
    Value::Object(serde_json::Map::new())
}

fn object_a_1() -> Value {
    let mut map = serde_json::Map::new();
    map.insert("a".to_string(), Value::Number(Number::from(1)));
    Value::Object(map)
}

fn all_pending(reports: &[FrameResult]) -> bool {
    reports.iter().all(|r| *r == FrameResult::Pending)
}

#[test]
fn new_framer_is_at_rest() {
    let parser = JsonParser::new();
    assert_eq!(parser.depth(), 0);
}

#[test]
fn empty_frame_is_pending_then_message() {
    let mut parser = JsonParser::new();
    let reports = feed(&mut parser, "{}");
    assert_eq!(reports, vec![FrameResult::Pending, FrameResult::Message(empty_object())]);
    assert_eq!(parser.depth(), 0);
}

#[test]
fn stray_close_then_open_is_pending_twice() {
    let mut parser = JsonParser::new();
    let reports = feed(&mut parser, "}{");
    assert_eq!(reports, vec![FrameResult::Pending, FrameResult::Pending]);
    // The stray close was dropped without moving the depth, so the open
    // brace has started a frame.
    assert_eq!(parser.depth(), 1);
    assert_eq!(parser.parse('}'), FrameResult::Message(empty_object()));
    let reports = feed(&mut parser, "{}");
    assert_eq!(reports, vec![FrameResult::Pending, FrameResult::Message(empty_object())]);
}

#[test]
fn trailing_comma_is_an_error_with_the_raw_text() {
    let mut parser = JsonParser::new();
    let text = "{\"a\":1,}";
    let mut reports = feed(&mut parser, text);
    let last = reports.pop().unwrap();
    assert_eq!(reports.len(), 7);
    assert!(all_pending(&reports));
    assert_eq!(last, FrameResult::Error(text.to_string()));
    assert_eq!(parser.depth(), 0);
    let mut reports = feed(&mut parser, "{\"a\":1}");
    let last = reports.pop().unwrap();
    assert!(all_pending(&reports));
    assert_eq!(last, FrameResult::Message(object_a_1()));
}

#[test]
fn encoded_value_comes_back_as_one_message() {
    let mut inner = serde_json::Map::new();
    inner.insert("position".to_string(), Value::Number(Number::from(50)));
    inner.insert("ok".to_string(), Value::Bool(true));
    let mut map = serde_json::Map::new();
    map.insert("topic".to_string(), Value::String("servo/status".to_string()));
    map.insert("nested".to_string(), Value::Object(inner));
    map.insert("list".to_string(), Value::Array(vec![Value::Null, Value::Number(Number::from(-3))]));
    let value = Value::Object(map);
    let text = serde_json::to_string(&value).unwrap();

    let mut parser = JsonParser::new();
    let mut reports = feed(&mut parser, &text);
    let last = reports.pop().unwrap();
    assert_eq!(reports.len(), text.chars().count() - 1);
    assert!(all_pending(&reports));
    assert_eq!(last, FrameResult::Message(value));
    assert_eq!(parser.depth(), 0);
}

#[test]
fn bytes_before_the_frame_are_dropped() {
    let mut parser = JsonParser::new();
    let reports = feed(&mut parser, " \r\nnoise 12 ] ");
    assert!(all_pending(&reports));
    assert_eq!(parser.depth(), 0);
    let reports = feed(&mut parser, "{\"a\":1}");
    assert_eq!(reports.last(), Some(&FrameResult::Message(object_a_1())));
}

#[test]
fn nested_braces_belong_to_one_message() {
    let mut parser = JsonParser::new();
    let text = "{\"a\":{\"b\":{}}}";
    let mut reports = feed(&mut parser, text);
    let last = reports.pop().unwrap();
    assert!(all_pending(&reports));
    let mut b = serde_json::Map::new();
    b.insert("b".to_string(), empty_object());
    let mut a = serde_json::Map::new();
    a.insert("a".to_string(), Value::Object(b));
    assert_eq!(last, FrameResult::Message(Value::Object(a)));
}

#[test]
fn depth_follows_the_braces() {
    let mut parser = JsonParser::new();
    feed(&mut parser, "{{{");
    assert_eq!(parser.depth(), 3);
    feed(&mut parser, "x}");
    assert_eq!(parser.depth(), 2);
}

#[test]
fn closing_the_open_braces_heals_the_framer() {
    let mut parser = JsonParser::new();
    feed(&mut parser, "}}x{\"a\":{{[");
    let open = parser.depth();
    assert_eq!(open, 3);
    let mut reports = Vec::new();
    for _ in 0..open {
        reports.push(parser.parse('}'));
    }
    let last = reports.pop().unwrap();
    assert!(all_pending(&reports));
    assert_eq!(last, FrameResult::Error("{\"a\":{{[}}}".to_string()));
    assert_eq!(parser.depth(), 0);
    let reports = feed(&mut parser, "{}");
    assert_eq!(reports, vec![FrameResult::Pending, FrameResult::Message(empty_object())]);
}

#[test]
fn brace_inside_a_string_ends_the_frame_early() {
    let mut parser = JsonParser::new();
    let reports = feed(&mut parser, "{\"a\":\"}\"}");
    assert_eq!(reports.len(), 9);
    assert!(all_pending(&reports[..6]));
    assert_eq!(reports[6], FrameResult::Error("{\"a\":\"}".to_string()));
    assert!(all_pending(&reports[7..]));
    assert_eq!(parser.depth(), 0);
}

#[test]
fn two_frames_back_to_back_give_two_messages() {
    let mut parser = JsonParser::new();
    let reports = feed(&mut parser, "{}{\"a\":1}");
    assert_eq!(reports[1], FrameResult::Message(empty_object()));
    assert_eq!(reports[8], FrameResult::Message(object_a_1()));
    let messages = reports.iter().filter(|r| **r != FrameResult::Pending).count();
    assert_eq!(messages, 2);
}

#[test]
fn non_ascii_characters_are_kept() {
    let mut parser = JsonParser::new();
    let reports = feed(&mut parser, "{\"a\":\"\u{e9}\u{4e2d}\"}");
    let mut map = serde_json::Map::new();
    map.insert("a".to_string(), Value::String("\u{e9}\u{4e2d}".to_string()));
    assert_eq!(reports.last(), Some(&FrameResult::Message(Value::Object(map))));
}

fn feed_bytes(parser: &mut JsonParser, bytes: &[u8]) -> Vec<FrameResult> {
    let mut reports = Vec::new();
    for b in bytes {
        assert!(parser.depth() < i32::MAX);
        reports.push(parser.parse_byte(*b));
    }
    reports
}

#[test]
fn bytes_are_read_as_utf8_when_the_frame_ends() {
    let text = "{\"a\":\"\u{e9}\u{4e2d}\u{1f600}\"}";
    let mut parser = JsonParser::new();
    let mut reports = feed_bytes(&mut parser, text.as_bytes());
    let last = reports.pop().unwrap();
    assert_eq!(reports.len(), text.len() - 1);
    assert!(all_pending(&reports));
    let mut map = serde_json::Map::new();
    map.insert("a".to_string(), Value::String("\u{e9}\u{4e2d}\u{1f600}".to_string()));
    assert_eq!(last, FrameResult::Message(Value::Object(map)));
    assert_eq!(parser.depth(), 0);
}

#[test]
fn encoded_value_with_any_characters_comes_back_from_its_bytes() {
    let mut map = serde_json::Map::new();
    map.insert("na\u{ef}ve".to_string(), Value::String("\u{3b1}\u{3b2} \u{2603}".to_string()));
    map.insert("n".to_string(), Value::Number(Number::from(7)));
    let value = Value::Object(map);
    let text = serde_json::to_string(&value).unwrap();
    let mut parser = JsonParser::new();
    let mut reports = feed_bytes(&mut parser, text.as_bytes());
    let last = reports.pop().unwrap();
    assert!(all_pending(&reports));
    assert_eq!(last, FrameResult::Message(value));
}

#[test]
fn bytes_that_are_not_utf8_are_read_with_the_replacement_character() {
    let mut parser = JsonParser::new();
    let reports = feed_bytes(&mut parser, b"{\"a\":\"\xff\"}");
    let mut map = serde_json::Map::new();
    map.insert("a".to_string(), Value::String("\u{fffd}".to_string()));
    assert_eq!(reports.last(), Some(&FrameResult::Message(Value::Object(map))));
    let reports = feed_bytes(&mut parser, b"{\xc3}");
    assert_eq!(reports.last(), Some(&FrameResult::Error("{\u{fffd}}".to_string())));
}

#[test]
fn bytes_and_characters_frame_alike() {
    let text = "x{\"k\":[1,{\"\u{e9}\":null}]}y";
    let mut by_char = JsonParser::new();
    let mut by_byte = JsonParser::new();
    let from_chars: Vec<FrameResult> =
        feed(&mut by_char, text).into_iter().filter(|r| *r != FrameResult::Pending).collect();
    let from_bytes: Vec<FrameResult> = feed_bytes(&mut by_byte, text.as_bytes())
        .into_iter()
        .filter(|r| *r != FrameResult::Pending)
        .collect();
    assert_eq!(from_chars.len(), 1);
    assert_eq!(from_chars, from_bytes);
}

#[test]
fn resolve_gives_the_value_or_the_raw_text() {
    let decoded = serde_json::from_str::<Value>("{\"a\":1}");
    assert_eq!(resolve(decoded, "{\"a\":1}".to_string()), FrameResult::Message(object_a_1()));
    let decoded = serde_json::from_str::<Value>("{,}");
    assert_eq!(resolve(decoded, "{,}".to_string()), FrameResult::Error("{,}".to_string()));
}
