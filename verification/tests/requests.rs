use user_api::docs::user_route_meta;
use user_api::handler::ContentType;
use user_api::router::handle_request;

#[test]
fn nil_uuid_returns_not_found() {
    let meta = user_route_meta();
    let r = handle_request("GET", "/users/00000000-0000-0000-0000-000000000000", &meta);
    assert_eq!(r.status, 404);
    assert_eq!(r.content_type, ContentType::PlainText);
    assert_eq!(r.body, "User not found");
}

#[test]
fn sample_uuid_returns_canned_record() {
    let meta = user_route_meta();
    let r = handle_request("GET", "/users/550e8400-e29b-41d4-a716-446655440000", &meta);
    assert_eq!(r.status, 200);
    assert_eq!(r.content_type, ContentType::Json);
    assert_eq!(
        r.body,
        "{\"uuid\":\"550e8400-e29b-41d4-a716-446655440000\",\"firstName\":\"Jane\",\"lastName\":\"Doe\",\"email\":\"jane.doe@example.com\",\"enabled\":true,\"activated\":true}"
    );
}

#[test]
fn sample_uuid_record_fields_via_serde() {
    let meta = user_route_meta();
    let r = handle_request("GET", "/users/550e8400-e29b-41d4-a716-446655440000", &meta);
    let v: serde_json::Value = serde_json::from_str(&r.body).unwrap();
    assert_eq!(
        v["uuid"].as_str().unwrap(),
        "550e8400-e29b-41d4-a716-446655440000"
    );
    assert_eq!(v["firstName"].as_str().unwrap(), "Jane");
    assert_eq!(v["lastName"].as_str().unwrap(), "Doe");
    assert_eq!(v["email"].as_str().unwrap(), "jane.doe@example.com");
    assert_eq!(v["enabled"].as_bool().unwrap(), true);
    assert_eq!(v["activated"].as_bool().unwrap(), true);
    assert_eq!(v.as_object().unwrap().len(), 6);
}

#[test]
fn malformed_uuid_is_client_error() {
    let meta = user_route_meta();
    let r = handle_request("GET", "/users/not-a-uuid", &meta);
    assert_eq!(r.status, 400);
    assert_eq!(r.content_type, ContentType::PlainText);
}

#[test]
fn unhyphenated_uuid_is_client_error() {
    let meta = user_route_meta();
    let r = handle_request("GET", "/users/550e8400e29b41d4a716446655440000", &meta);
    assert_eq!(r.status, 400);
}

#[test]
fn upper_case_digits_are_accepted_and_lowered() {
    let meta = user_route_meta();
    let r = handle_request("GET", "/users/550E8400-E29B-41D4-A716-446655440000", &meta);
    assert_eq!(r.status, 200);
    let v: serde_json::Value = serde_json::from_str(&r.body).unwrap();
    assert_eq!(
        v["uuid"].as_str().unwrap(),
        "550e8400-e29b-41d4-a716-446655440000"
    );
}

#[test]
fn unmatched_path_is_not_found() {
    let meta = user_route_meta();
    let r = handle_request("GET", "/nothing/here", &meta);
    assert_eq!(r.status, 404);
    assert_eq!(r.body, "");
    let r = handle_request("GET", "/users/", &meta);
    assert_eq!(r.status, 404);
    let r = handle_request("GET", "/users/a/b", &meta);
    assert_eq!(r.status, 404);
}

#[test]
fn non_get_method_is_not_found() {
    let meta = user_route_meta();
    let r = handle_request("POST", "/users/550e8400-e29b-41d4-a716-446655440000", &meta);
    assert_eq!(r.status, 404);
    assert_eq!(r.body, "");
}

#[test]
fn distinct_ids_get_distinct_independent_responses() {
    let meta = user_route_meta();
    let u1 = "550e8400-e29b-41d4-a716-446655440000";
    let u2 = "123e4567-e89b-42d3-a456-426614174000";
    let r1 = handle_request("GET", &format!("/users/{u1}"), &meta);
    let r2 = handle_request("GET", &format!("/users/{u2}"), &meta);
    assert_eq!(r1.status, 200);
    assert_eq!(r2.status, 200);
    assert_ne!(r1.body, r2.body);
    assert!(r1.body.contains(u1));
    assert!(!r1.body.contains(u2));
    assert!(r2.body.contains(u2));
    assert!(!r2.body.contains(u1));
}

#[test]
fn content_type_header_values() {
    assert_eq!(ContentType::Json.mime_type(), "application/json");
    assert_eq!(ContentType::PlainText.mime_type(), "text/plain; charset=utf-8");
    assert_eq!(ContentType::Html.mime_type(), "text/html; charset=utf-8");
}

#[test]
fn unknown_error_response_shape() {
    let r = user_api::handler::unknown_error_response();
    assert_eq!(r.status, 500);
    assert_eq!(r.content_type, ContentType::PlainText);
    assert_eq!(r.body, "Unknown error");
}
