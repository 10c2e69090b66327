use user_api::handler::get_user_by_id;
use user_api::user_id::parse_user_id;

#[test]
fn canonical_strings_round_trip() {
    let samples = [
        "00000000-0000-0000-0000-000000000001",
        "550e8400-e29b-41d4-a716-446655440000",
        "ffffffff-ffff-ffff-ffff-ffffffffffff",
        "123e4567-e89b-12d3-a456-426614174000",
        "01234567-89ab-cdef-0123-456789abcdef",
    ];
    for s in samples {
        let id = parse_user_id(s).unwrap();
        assert_eq!(id.to_canonical(), s);
    }
}

#[test]
fn upper_case_input_renders_lower_case() {
    let id = parse_user_id("01234567-89AB-CDEF-0123-456789ABCDEF").unwrap();
    assert_eq!(id.to_canonical(), "01234567-89ab-cdef-0123-456789abcdef");
}

#[test]
fn rendering_agrees_with_the_uuid_crate() {
    let samples = [
        "550e8400-e29b-41d4-a716-446655440000",
        "FFFFFFFF-FFFF-FFFF-FFFF-FFFFFFFFFFFF",
        "00000000-0000-0000-0000-000000000000",
    ];
    for s in samples {
        let ours = parse_user_id(s).unwrap().to_canonical();
        let theirs = uuid::Uuid::parse_str(s).unwrap().hyphenated().to_string();
        assert_eq!(ours, theirs);
    }
}

#[test]
fn nil_identifier_is_recognized() {
    let nil_text = uuid::Uuid::nil().to_string();
    let id = parse_user_id(&nil_text).unwrap();
    assert!(id.is_nil());
    let other = parse_user_id("00000000-0000-0000-0000-000000000001").unwrap();
    assert!(!other.is_nil());
    assert!(user_api::user_id::UserId::nil().is_nil());
}

#[test]
fn malformed_identifiers_are_rejected() {
    let bad = [
        "",
        "not-a-uuid",
        "550e8400e29b41d4a716446655440000",
        "550e8400-e29b-41d4-a716-44665544000",
        "550e8400-e29b-41d4-a716-4466554400000",
        "550e8400-e29b-41d4-a716_446655440000",
        "550e8400-e29b-41d4-a716-44665544000g",
        "550e8400-e29b+41d4-a716-446655440000",
    ];
    for s in bad {
        assert!(parse_user_id(s).is_none(), "accepted: {s}");
    }
}

#[test]
fn lookup_echoes_the_requested_identifier() {
    let samples = [
        "00000000-0000-0000-0000-000000000001",
        "123e4567-e89b-12d3-a456-426614174000",
        "abcdefab-cdef-abcd-efab-cdefabcdefab",
    ];
    for s in samples {
        let id = parse_user_id(s).unwrap();
        let r = get_user_by_id(id);
        assert_eq!(r.status, 200);
        let v: serde_json::Value = serde_json::from_str(&r.body).unwrap();
        assert_eq!(v["uuid"].as_str().unwrap(), s);
    }
}
