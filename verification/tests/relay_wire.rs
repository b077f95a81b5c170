use mcp_bridge::json::{extract_text, JsonValue};
use mcp_bridge::relay::{
    build_request_body, interpret_response, relay_endpoint, render_response,
    request_failed_message,
};
use mcp_bridge::render::to_pretty_string;

fn text_response(text: &str) -> JsonValue {
    let item = JsonValue::Obj(vec![(
        String::from("text"),
        JsonValue::Str(String::from(text)),
    )]);
    let content = JsonValue::Arr(vec![item]);
    let result = JsonValue::Obj(vec![(String::from("content"), content)]);
    JsonValue::Obj(vec![(String::from("result"), result)])
}

#[test]
fn request_body_has_the_fixed_shape() {
    let body = build_request_body("ping", "x");
    assert_eq!(
        body,
        "{\"jsonrpc\":\"2.0\",\"id\":1,\"method\":\"tools/call\",\"params\":{\"name\":\"ping\",\"arguments\":{\"target\":\"x\",\"prompt\":\"x\"}}}"
    );
}

#[test]
fn request_body_escapes_tool_name_and_input() {
    let body = build_request_body("a\"b", "a\"b\\c\nd\u{1}");
    assert_eq!(
        body,
        "{\"jsonrpc\":\"2.0\",\"id\":1,\"method\":\"tools/call\",\"params\":{\"name\":\"a\\\"b\",\"arguments\":{\"target\":\"a\\\"b\\\\c\\nd\\u0001\",\"prompt\":\"a\\\"b\\\\c\\nd\\u0001\"}}}"
    );
}

#[test]
fn request_body_parses_back_to_the_given_arguments() {
    // The built body must be valid JSON that carries the input verbatim.
    let body = build_request_body("review", "fn main() { \"quoted\" }\n\ttabbed");
    let v: serde_json::Value = serde_json::from_str(&body).unwrap();
    assert_eq!(v["params"]["name"], "review");
    assert_eq!(v["params"]["arguments"]["target"], "fn main() { \"quoted\" }\n\ttabbed");
    assert_eq!(v["params"]["arguments"]["prompt"], "fn main() { \"quoted\" }\n\ttabbed");
    assert_eq!(v["jsonrpc"], "2.0");
    assert_eq!(v["id"], 1);
    assert_eq!(v["method"], "tools/call");
}

#[test]
fn endpoint_is_the_loopback_relay() {
    assert_eq!(relay_endpoint(), "http://127.0.0.1:3001/mcp");
}

#[test]
fn response_fast_path_returns_text_verbatim() {
    let r = interpret_response("{\"result\":{\"content\":[{\"text\":\"hello\"}]}}");
    assert_eq!(r, Ok(String::from("hello")));
}

#[test]
fn response_missing_content_falls_back_to_pretty_body() {
    let r = interpret_response("{\"result\":{}}");
    assert_eq!(r, Ok(String::from("{\n  \"result\": {}\n}")));
}

#[test]
fn response_content_not_array_falls_back() {
    let r = interpret_response("{\"result\":{\"content\":\"x\"}}");
    assert_eq!(r, Ok(String::from("{\n  \"result\": {\n    \"content\": \"x\"\n  }\n}")));
}

#[test]
fn response_empty_content_array_falls_back() {
    let r = interpret_response("{\"result\":{\"content\":[]}}");
    assert_eq!(r, Ok(String::from("{\n  \"result\": {\n    \"content\": []\n  }\n}")));
}

#[test]
fn response_text_not_a_string_falls_back() {
    let r = interpret_response("{\"result\":{\"content\":[{\"text\":5}]}}");
    assert_eq!(
        r,
        Ok(String::from(
            "{\n  \"result\": {\n    \"content\": [\n      {\n        \"text\": 5\n      }\n    ]\n  }\n}"
        ))
    );
}

#[test]
fn response_pretty_keeps_numbers_and_sorts_nothing_itself() {
    // serde_json's default map hands fields over ordered by key; the
    // commas and the indenting are the library's own.
    let r = interpret_response("{\"b\":1,\"a\":2.5}");
    assert_eq!(r, Ok(String::from("{\n  \"a\": 2.5,\n  \"b\": 1\n}")));
}

#[test]
fn response_invalid_json_is_a_parse_failure() {
    let r = interpret_response("not json");
    let e = r.unwrap_err();
    assert!(e.starts_with("Failed to parse response: "));
}

#[test]
fn request_failure_message_carries_the_prefix() {
    let m = request_failed_message("connection refused");
    assert_eq!(m, "Request failed: connection refused");
    assert!(m.starts_with("Request failed:"));
}

#[test]
fn extract_text_finds_the_expected_shape() {
    let v = text_response("hello");
    assert_eq!(extract_text(&v), Some(String::from("hello")));
}

#[test]
fn extract_text_rejects_other_shapes() {
    assert_eq!(extract_text(&JsonValue::Null), None);
    let no_result = JsonValue::Obj(vec![(String::from("x"), JsonValue::Null)]);
    assert_eq!(extract_text(&no_result), None);
    let item = JsonValue::Str(String::from("bare"));
    let content = JsonValue::Arr(vec![item]);
    let result = JsonValue::Obj(vec![(String::from("content"), content)]);
    let first_item_not_object = JsonValue::Obj(vec![(String::from("result"), result)]);
    assert_eq!(extract_text(&first_item_not_object), None);
}

#[test]
fn render_response_prefers_the_fast_path() {
    let v = text_response("done");
    assert_eq!(render_response(&v), "done");
}

#[test]
fn pretty_form_of_small_documents() {
    assert_eq!(to_pretty_string(&JsonValue::Obj(vec![])), "{}");
    assert_eq!(to_pretty_string(&JsonValue::Arr(vec![])), "[]");
    assert_eq!(to_pretty_string(&JsonValue::Null), "null");
    assert_eq!(to_pretty_string(&JsonValue::Bool(true)), "true");
    let arr = JsonValue::Arr(vec![
        JsonValue::Num(String::from("1")),
        JsonValue::Bool(false),
        JsonValue::Null,
    ]);
    assert_eq!(to_pretty_string(&arr), "[\n  1,\n  false,\n  null\n]");
}

#[test]
fn pretty_form_escapes_strings() {
    let v = JsonValue::Str(String::from("a\"b\\c\u{1f}"));
    assert_eq!(to_pretty_string(&v), "\"a\\\"b\\\\c\\u001f\"");
}

#[test]
fn escaping_uses_the_short_control_forms() {
    let v = JsonValue::Str(String::from("\u{8}\t\n\u{c}\r"));
    assert_eq!(to_pretty_string(&v), "\"\\b\\t\\n\\f\\r\"");
}
