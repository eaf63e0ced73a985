use weather_gateway::json::render_envelope;
use weather_gateway::translate::ApiEnvelope;

fn envelope(status: &str, message: &str) -> ApiEnvelope {
    ApiEnvelope { status: status.to_string(), message: message.to_string() }
}

#[test]
fn plain_text_renders_verbatim() {
    let e = envelope("success", "all good");
    assert_eq!(render_envelope(&e), "{\"status\":\"success\",\"message\":\"all good\"}");
}

#[test]
fn quotes_and_backslashes_are_escaped() {
    let e = envelope("error", "path \"C:\\tmp\"");
    assert_eq!(
        render_envelope(&e),
        "{\"status\":\"error\",\"message\":\"path \\\"C:\\\\tmp\\\"\"}"
    );
}

#[test]
fn common_control_characters_use_short_escapes() {
    let e = envelope("error", "a\nb\tc\rd\u{8}e\u{c}f");
    assert_eq!(
        render_envelope(&e),
        "{\"status\":\"error\",\"message\":\"a\\nb\\tc\\rd\\be\\ff\"}"
    );
}

#[test]
fn other_control_characters_use_unicode_escapes() {
    let e = envelope("error", "x\u{1}y\u{1f}z");
    assert_eq!(
        render_envelope(&e),
        "{\"status\":\"error\",\"message\":\"x\\u0001y\\u001fz\"}"
    );
}

#[test]
fn empty_message_renders_an_empty_literal() {
    let e = envelope("success", "");
    assert_eq!(render_envelope(&e), "{\"status\":\"success\",\"message\":\"\"}");
}

#[test]
fn rendered_text_parses_back_with_a_json_parser() {
    let e = envelope("error", "line one\nline \"two\" \\ \u{3} caf\u{e9}");
    let text = render_envelope(&e);
    let value: serde_json::Value = serde_json::from_str(&text).expect("valid JSON");
    assert_eq!(value["status"], "error");
    assert_eq!(value["message"], "line one\nline \"two\" \\ \u{3} caf\u{e9}");
}
