use user_api::json_text::json_escape;
use user_api::user::{user_to_json, User};
use user_api::user_id::parse_user_id;

#[test]
fn escaping_of_quotes_backslashes_and_controls() {
    assert_eq!(json_escape("plain"), "plain");
    assert_eq!(json_escape("a\"b"), "a\\\"b");
    assert_eq!(json_escape("a\\b"), "a\\\\b");
    assert_eq!(json_escape("a\nb\tc"), "a\\u000ab\\u0009c");
    assert_eq!(json_escape(""), "");
}

#[test]
fn escaped_text_parses_back_via_serde() {
    let raw = "he said \"hi\\bye\"\nline\u{1}two";
    let quoted = format!("\"{}\"", json_escape(raw));
    let v: serde_json::Value = serde_json::from_str(&quoted).unwrap();
    assert_eq!(v.as_str().unwrap(), raw);
}

#[test]
fn serializer_handles_awkward_field_values() {
    let user = User {
        uuid: parse_user_id("550e8400-e29b-41d4-a716-446655440000").unwrap(),
        first_name: String::from("Ja\"ne"),
        last_name: String::from("Do\\e"),
        email: String::from("jane\ndoe@example.com"),
        enabled: false,
        activated: true,
    };
    let body = user_to_json(&user);
    let v: serde_json::Value = serde_json::from_str(&body).unwrap();
    assert_eq!(v["uuid"].as_str().unwrap(), "550e8400-e29b-41d4-a716-446655440000");
    assert_eq!(v["firstName"].as_str().unwrap(), "Ja\"ne");
    assert_eq!(v["lastName"].as_str().unwrap(), "Do\\e");
    assert_eq!(v["email"].as_str().unwrap(), "jane\ndoe@example.com");
    assert_eq!(v["enabled"].as_bool().unwrap(), false);
    assert_eq!(v["activated"].as_bool().unwrap(), true);
}
