use user_api::docs::{api_doc_page, render_openapi, user_route_meta};

const USER_PATH: &str = "/business/{businessId}/users/{userId}";

#[test]
fn description_is_valid_json_with_the_documented_route() {
    let meta = user_route_meta();
    let doc = render_openapi(&meta);
    let v: serde_json::Value = serde_json::from_str(&doc).unwrap();
    assert_eq!(v["openapi"].as_str().unwrap(), "3.1.0");
    let op = &v["paths"][USER_PATH]["get"];
    assert_eq!(op["summary"].as_str().unwrap(), "Get user account by user id");
    let params = op["parameters"].as_array().unwrap();
    assert_eq!(params.len(), 2);
    assert_eq!(params[0]["name"].as_str().unwrap(), "businessId");
    assert_eq!(params[1]["name"].as_str().unwrap(), "userId");
    assert_eq!(params[0]["in"].as_str().unwrap(), "path");
    assert_eq!(params[1]["in"].as_str().unwrap(), "path");
}

#[test]
fn description_schema_holds_the_example_record() {
    let meta = user_route_meta();
    let doc = render_openapi(&meta);
    let v: serde_json::Value = serde_json::from_str(&doc).unwrap();
    let resp = &v["paths"][USER_PATH]["get"]["responses"]["200"];
    assert_eq!(resp["description"].as_str().unwrap(), "User");
    let props = resp["content"]["application/json"]["schema"]["properties"]
        .as_object()
        .unwrap();
    assert_eq!(props.len(), 6);
    assert_eq!(
        props["uuid"]["example"].as_str().unwrap(),
        "550e8400-e29b-41d4-a716-446655440000"
    );
    assert_eq!(props["uuid"]["type"].as_str().unwrap(), "string");
    assert_eq!(props["firstName"]["example"].as_str().unwrap(), "Jane");
    assert_eq!(props["lastName"]["example"].as_str().unwrap(), "Doe");
    assert_eq!(
        props["email"]["example"].as_str().unwrap(),
        "jane.doe@example.com"
    );
    assert_eq!(props["enabled"]["example"].as_bool().unwrap(), true);
    assert_eq!(props["enabled"]["type"].as_str().unwrap(), "boolean");
    assert_eq!(props["activated"]["example"].as_bool().unwrap(), true);
}

#[test]
fn page_embeds_the_description_in_the_viewer() {
    let meta = user_route_meta();
    let page = api_doc_page(&meta);
    assert!(page.contains("api-reference"));
    assert!(page.contains("\"theme\":\"laserwave\""));
    assert!(page.contains("cdn.jsdelivr.net/npm/@scalar/api-reference"));
    let start_tag = "type=\"application/json\">\n";
    let start = page.find(start_tag).unwrap() + start_tag.len();
    let end = page[start..].find("\n</script>").unwrap() + start;
    let embedded: serde_json::Value = serde_json::from_str(&page[start..end]).unwrap();
    assert!(embedded["paths"][USER_PATH].is_object());
}
