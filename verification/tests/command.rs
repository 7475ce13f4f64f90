use chat_backend::endpoint_url;
use chat_backend::escape::escape_json_string;
use chat_backend::request::{bearer_header, build_request_body, missing_credential_message, prepare_chat_call};
use chat_backend::response::{handle_response_body, transport_error_message};

#[test]
fn missing_credential_for_any_prompt() {
    for prompt in ["hello", "", "with \"quotes\"", "中文 ☃", "\n\t"] {
        let r = prepare_chat_call(None, prompt);
        assert_eq!(r.unwrap_err(), "❌ 找不到環境變數 V36_API_KEY");
    }
}

#[test]
fn missing_credential_message_names_the_variable() {
    assert!(missing_credential_message().contains("V36_API_KEY"));
}

#[test]
fn prepared_request_has_url_header_and_body() {
    let r = prepare_chat_call(Some("sk-test".to_string()), "hi").unwrap();
    assert_eq!(r.url, "https://free.v36.cm/v1/chat/completions");
    assert_eq!(r.auth_header, "Bearer sk-test");
    assert_eq!(
        r.body,
        "{\"model\":\"gpt-4o-mini\",\"messages\":[{\"role\":\"user\",\"content\":\"hi\"}]}"
    );
}

#[test]
fn endpoint_is_fixed() {
    assert_eq!(endpoint_url(), "https://free.v36.cm/v1/chat/completions");
}

#[test]
fn bearer_header_prefixes_key() {
    assert_eq!(bearer_header("abc123"), "Bearer abc123");
    assert_eq!(bearer_header(""), "Bearer ");
}

#[test]
fn body_carries_plain_prompt_verbatim() {
    let body = build_request_body("tell me a story");
    assert_eq!(
        body,
        "{\"model\":\"gpt-4o-mini\",\"messages\":[{\"role\":\"user\",\"content\":\"tell me a story\"}]}"
    );
}

#[test]
fn body_content_round_trips_through_a_real_json_parser() {
    for prompt in [
        "say \"hi\" to C:\\Users\\me",
        "newline\nand tab\tand quote \" and backslash \\",
        "中文提示 with ☃ and emoji ✅",
        "\u{0001}\u{001f} control chars",
        "plain",
    ] {
        let body = build_request_body(prompt);
        let v: serde_json::Value = serde_json::from_str(&body).expect("body must be valid JSON");
        assert_eq!(v["model"], serde_json::Value::String("gpt-4o-mini".to_string()));
        let messages = v["messages"].as_array().expect("messages must be an array");
        assert_eq!(messages.len(), 1);
        assert_eq!(messages[0]["role"].as_str(), Some("user"));
        assert_eq!(messages[0]["content"].as_str(), Some(prompt));
    }
}

#[test]
fn escape_leaves_ordinary_text_alone() {
    assert_eq!(escape_json_string(""), "");
    assert_eq!(escape_json_string("hello world"), "hello world");
    assert_eq!(escape_json_string("héllo ☃"), "héllo ☃");
}

#[test]
fn escape_rewrites_quotes_backslashes_and_controls() {
    assert_eq!(escape_json_string("a\"b"), "a\\\"b");
    assert_eq!(escape_json_string("a\\b"), "a\\\\b");
    assert_eq!(escape_json_string("\n"), "\\u000a");
    assert_eq!(escape_json_string("\t"), "\\u0009");
    assert_eq!(escape_json_string("\u{0000}"), "\\u0000");
    assert_eq!(escape_json_string("\u{001f}"), "\\u001f");
    assert_eq!(escape_json_string("x\u{0010}y"), "x\\u0010y");
}

#[test]
fn valid_json_is_returned_in_its_string_form() {
    let r = handle_response_body("{\"choices\": [ {\"text\": \"ok\"} ] }").unwrap();
    assert_eq!(r, "{\"choices\":[{\"text\":\"ok\"}]}");
}

#[test]
fn string_form_agrees_with_the_json_library() {
    let body = "[1, 2, {\"a\": null}]";
    let expected = serde_json::from_str::<serde_json::Value>(body).unwrap().to_string();
    assert_eq!(handle_response_body(body).unwrap(), expected);
}

#[test]
fn non_object_json_is_accepted_too() {
    assert_eq!(handle_response_body("42").unwrap(), "42");
    assert_eq!(handle_response_body("[1, 2]").unwrap(), "[1,2]");
    assert_eq!(handle_response_body("\"text\"").unwrap(), "\"text\"");
}

#[test]
fn invalid_json_gives_a_parse_error() {
    for body in ["not json", "{\"unterminated\": ", "", "{]"] {
        let e = handle_response_body(body).unwrap_err();
        assert!(e.starts_with("Parse JSON error: "), "unexpected message: {e}");
        assert!(e.len() > "Parse JSON error: ".len());
    }
}

#[test]
fn transport_failures_are_wrapped() {
    assert_eq!(
        transport_error_message("connection refused"),
        "Request error: connection refused"
    );
}
