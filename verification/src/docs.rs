//! The route-metadata table and the documentation renderer: a
//! machine-readable API description built from explicit descriptors, and
//! the HTML page that embeds it in the interactive reference viewer.
use crate::json_text::append_json_escaped;
use crate::json_text::json_escaped;
use crate::user::bool_json;
use vstd::prelude::*;

verus! {

/// A path parameter of a route.
pub struct ParamMeta {
    pub name: String,
    pub description: String,
}

/// The example value of a response field; its variant fixes the field's
/// JSON type.
pub enum ExampleValue {
    Text(String),
    Flag(bool),
}

/// One field of the response schema.
pub struct FieldMeta {
    pub name: String,
    pub example: ExampleValue,
    pub description: String,
}

/// One route: method, path template, path parameters, and the response
/// schema with example values.
pub struct RouteMeta {
    pub method: String,
    pub path: String,
    pub summary: String,
    pub params: Vec<ParamMeta>,
    pub response_description: String,
    pub fields: Vec<FieldMeta>,
}

/// A JSON string literal holding the characters of `s`.
pub open spec fn json_string(s: Seq<char>) -> Seq<char> {
    "\""@ + json_escaped(s) + "\""@
}

/// The JSON type name a field of this example kind declares.
pub open spec fn type_name_of(e: ExampleValue) -> Seq<char> {
    match e {
        ExampleValue::Text(_) => "string"@,
        ExampleValue::Flag(_) => "boolean"@,
    }
}

/// The JSON text of an example value.
pub open spec fn example_json_of(e: ExampleValue) -> Seq<char> {
    match e {
        ExampleValue::Text(s) => json_string(s@),
        ExampleValue::Flag(b) => bool_json(b),
    }
}

/// The JSON object describing one path parameter.
pub open spec fn param_json_of(p: ParamMeta) -> Seq<char> {
    "{\"name\":"@ + json_string(p.name@)
        + ",\"in\":\"path\",\"required\":true,\"description\":"@ + json_string(p.description@)
        + ",\"schema\":{\"type\":\"string\"}}"@
}

/// The parameter objects in order, separated by commas.
pub open spec fn params_json_of(ps: Seq<ParamMeta>) -> Seq<char>
    decreases ps.len(),
{
    if ps.len() == 0 {
        Seq::empty()
    } else if ps.len() == 1 {
        param_json_of(ps[0])
    } else {
        params_json_of(ps.drop_last()) + ","@ + param_json_of(ps.last())
    }
}

/// The JSON member describing one response field.
pub open spec fn field_json_of(f: FieldMeta) -> Seq<char> {
    json_string(f.name@) + ":{\"type\":\""@ + type_name_of(f.example) + "\",\"description\":"@
        + json_string(f.description@) + ",\"example\":"@ + example_json_of(f.example) + "}"@
}

/// The field members in order, separated by commas.
pub open spec fn fields_json_of(fs: Seq<FieldMeta>) -> Seq<char>
    decreases fs.len(),
{
    if fs.len() == 0 {
        Seq::empty()
    } else if fs.len() == 1 {
        field_json_of(fs[0])
    } else {
        fields_json_of(fs.drop_last()) + ","@ + field_json_of(fs.last())
    }
}

/// The machine-readable API description of one route, as a JSON document.
pub open spec fn openapi_json_of(r: RouteMeta) -> Seq<char> {
    "{\"openapi\":\"3.1.0\",\"info\":{\"title\":\"API\",\"version\":\"0.1.0\"},\"paths\":{"@
        + json_string(r.path@) + ":{"@ + json_string(r.method@) + ":{\"summary\":"@ + json_string(
        r.summary@,
    ) + ",\"parameters\":["@ + params_json_of(r.params@)
        + "],\"responses\":{\"200\":{\"description\":"@ + json_string(r.response_description@)
        + ",\"content\":{\"application/json\":{\"schema\":{\"type\":\"object\",\"properties\":{"@
        + fields_json_of(r.fields@) + "}}}}}}}}}}"@
}

/// Appends a JSON string literal holding `s`.
fn append_json_string(out: &mut String, s: &str)
    ensures
        final(out)@ == old(out)@ + json_string(s@),
{
    out.append("\"");
    append_json_escaped(out, s);
    out.append("\"");
}

/// Appends the JSON object of one path parameter.
fn append_param_json(out: &mut String, p: &ParamMeta)
    ensures
        final(out)@ == old(out)@ + param_json_of(*p),
{
    out.append("{\"name\":");
    append_json_string(out, p.name.as_str());
    out.append(",\"in\":\"path\",\"required\":true,\"description\":");
    append_json_string(out, p.description.as_str());
    out.append(",\"schema\":{\"type\":\"string\"}}");
}

/// Appends the comma-separated parameter objects.
fn append_params_json(out: &mut String, ps: &Vec<ParamMeta>)
    ensures
        final(out)@ == old(out)@ + params_json_of(ps@),
{
    let n: usize = ps.len();
    let mut i: usize = 0;
    while i < n
        invariant
            n == ps@.len(),
            i <= n,
            out@ == old(out)@ + params_json_of(ps@.subrange(0, i as int)),
        decreases n - i,
    {
        if i > 0 {
            out.append(",");
        }
        append_param_json(out, &ps[i]);
        proof {
            reveal_strlit(",");
            let pre = ps@.subrange(0, i as int);
            let post = ps@.subrange(0, i + 1 as int);
            assert(post.drop_last() =~= pre);
            assert(post.last() == ps@[i as int]);
            if i == 0 {
                assert(out@ =~= old(out)@ + params_json_of(post));
            } else {
                assert((",")@ =~= seq![',']);
                assert(out@ =~= old(out)@ + params_json_of(post));
            }
        }
        i += 1;
    }
    proof {
        assert(ps@.subrange(0, n as int) =~= ps@);
    }
}

/// Appends the JSON member of one response field.
fn append_field_json(out: &mut String, f: &FieldMeta)
    ensures
        final(out)@ == old(out)@ + field_json_of(*f),
{
    append_json_string(out, f.name.as_str());
    out.append(":{\"type\":\"");
    match &f.example {
        ExampleValue::Text(_) => out.append("string"),
        ExampleValue::Flag(_) => out.append("boolean"),
    }
    out.append("\",\"description\":");
    append_json_string(out, f.description.as_str());
    out.append(",\"example\":");
    match &f.example {
        ExampleValue::Text(s) => append_json_string(out, s.as_str()),
        ExampleValue::Flag(b) => {
            if *b {
                out.append("true");
            } else {
                out.append("false");
            }
        },
    }
    out.append("}");
}

/// Appends the comma-separated field members.
fn append_fields_json(out: &mut String, fs: &Vec<FieldMeta>)
    ensures
        final(out)@ == old(out)@ + fields_json_of(fs@),
{
    let n: usize = fs.len();
    let mut i: usize = 0;
    while i < n
        invariant
            n == fs@.len(),
            i <= n,
            out@ == old(out)@ + fields_json_of(fs@.subrange(0, i as int)),
        decreases n - i,
    {
        if i > 0 {
            out.append(",");
        }
        append_field_json(out, &fs[i]);
        proof {
            reveal_strlit(",");
            let pre = fs@.subrange(0, i as int);
            let post = fs@.subrange(0, i + 1 as int);
            assert(post.drop_last() =~= pre);
            assert(post.last() == fs@[i as int]);
            assert(out@ =~= old(out)@ + fields_json_of(post));
        }
        i += 1;
    }
    proof {
        assert(fs@.subrange(0, n as int) =~= fs@);
    }
}

/// Renders the machine-readable API description of a route.
pub fn render_openapi(r: &RouteMeta) -> (out: String)
    ensures
        out@ == openapi_json_of(*r),
{
    let mut out = String::from_str(
        "{\"openapi\":\"3.1.0\",\"info\":{\"title\":\"API\",\"version\":\"0.1.0\"},\"paths\":{",
    );
    append_json_string(&mut out, r.path.as_str());
    out.append(":{");
    append_json_string(&mut out, r.method.as_str());
    out.append(":{\"summary\":");
    append_json_string(&mut out, r.summary.as_str());
    out.append(",\"parameters\":[");
    append_params_json(&mut out, &r.params);
    out.append("],\"responses\":{\"200\":{\"description\":");
    append_json_string(&mut out, r.response_description.as_str());
    out.append(",\"content\":{\"application/json\":{\"schema\":{\"type\":\"object\",\"properties\":{");
    append_fields_json(&mut out, &r.fields);
    out.append("}}}}}}}}}}");
    out
}

/// The descriptor of the one documented route: the user lookup, with its
/// two path parameters and the six-field response schema with example
/// values.
pub fn user_route_meta() -> (r: RouteMeta)
    ensures
        r.method@ == "get"@,
        r.path@ == "/business/{businessId}/users/{userId}"@,
        r.summary@ == "Get user account by user id"@,
        r.response_description@ == "User"@,
        r.params@.len() == 2,
        r.params@[0].name@ == "businessId"@,
        r.params@[0].description@ == "Business id of the user"@,
        r.params@[1].name@ == "userId"@,
        r.params@[1].description@ == "User id to get user"@,
        r.fields@.len() == 6,
        r.fields@[0].name@ == "uuid"@,
        (r.fields@[0].example matches ExampleValue::Text(s) && s@
            == "550e8400-e29b-41d4-a716-446655440000"@),
        r.fields@[1].name@ == "firstName"@,
        (r.fields@[1].example matches ExampleValue::Text(s) && s@ == "Jane"@),
        r.fields@[2].name@ == "lastName"@,
        (r.fields@[2].example matches ExampleValue::Text(s) && s@ == "Doe"@),
        r.fields@[3].name@ == "email"@,
        (r.fields@[3].example matches ExampleValue::Text(s) && s@ == "jane.doe@example.com"@),
        r.fields@[4].name@ == "enabled"@,
        r.fields@[4].example matches ExampleValue::Flag(true),
        r.fields@[5].name@ == "activated"@,
        r.fields@[5].example matches ExampleValue::Flag(true),
{
    let mut params: Vec<ParamMeta> = Vec::new();
    params.push(
        ParamMeta {
            name: String::from_str("businessId"),
            description: String::from_str("Business id of the user"),
        },
    );
    params.push(
        ParamMeta {
            name: String::from_str("userId"),
            description: String::from_str("User id to get user"),
        },
    );
    let mut fields: Vec<FieldMeta> = Vec::new();
    fields.push(
        FieldMeta {
            name: String::from_str("uuid"),
            example: ExampleValue::Text(String::from_str("550e8400-e29b-41d4-a716-446655440000")),
            description: String::from_str("Unique identifier for the user."),
        },
    );
    fields.push(
        FieldMeta {
            name: String::from_str("firstName"),
            example: ExampleValue::Text(String::from_str("Jane")),
            description: String::from_str("First name of the user."),
        },
    );
    fields.push(
        FieldMeta {
            name: String::from_str("lastName"),
            example: ExampleValue::Text(String::from_str("Doe")),
            description: String::from_str("Last name of the user."),
        },
    );
    fields.push(
        FieldMeta {
            name: String::from_str("email"),
            example: ExampleValue::Text(String::from_str("jane.doe@example.com")),
            description: String::from_str("Email address of the user."),
        },
    );
    fields.push(
        FieldMeta {
            name: String::from_str("enabled"),
            example: ExampleValue::Flag(true),
            description: String::from_str("Whether the user's account is enabled."),
        },
    );
    fields.push(
        FieldMeta {
            name: String::from_str("activated"),
            example: ExampleValue::Flag(true),
            description: String::from_str("Whether the user's account is activated."),
        },
    );
    RouteMeta {
        method: String::from_str("get"),
        path: String::from_str("/business/{businessId}/users/{userId}"),
        summary: String::from_str("Get user account by user id"),
        params,
        response_description: String::from_str("User"),
        fields,
    }
}

/// The reference page: a fixed HTML shell whose viewer element embeds the
/// JSON description, themed by a static configuration option.
pub open spec fn doc_page_of(doc: Seq<char>) -> Seq<char> {
    "<!doctype html>\n<html>\n<head>\n<title>API</title>\n<meta charset=\"utf-8\"/>\n<meta name=\"viewport\" content=\"width=device-width, initial-scale=1\"/>\n</head>\n<body>\n<script id=\""@
        + "api-reference"@
        + "\" data-configuration='{\"theme\":\"laserwave\"}' type=\"application/json\">\n"@ + doc
        + "\n</script>\n<script src=\"https://cdn.jsdelivr.net/npm/@scalar/api-reference\"></script>\n</body>\n</html>\n"@
}

/// Renders the reference page around a JSON description.
pub fn render_doc_page(doc: &str) -> (out: String)
    ensures
        out@ == doc_page_of(doc@),
{
    let mut out = String::from_str(
        "<!doctype html>\n<html>\n<head>\n<title>API</title>\n<meta charset=\"utf-8\"/>\n<meta name=\"viewport\" content=\"width=device-width, initial-scale=1\"/>\n</head>\n<body>\n<script id=\"",
    );
    out.append("api-reference");
    out.append(
        "\" data-configuration='{\"theme\":\"laserwave\"}' type=\"application/json\">\n",
    );
    out.append(doc);
    out.append(
        "\n</script>\n<script src=\"https://cdn.jsdelivr.net/npm/@scalar/api-reference\"></script>\n</body>\n</html>\n",
    );
    out
}

/// The reference page for a route: its JSON description inside the viewer
/// shell.
pub fn api_doc_page(meta: &RouteMeta) -> (out: String)
    ensures
        out@ == doc_page_of(openapi_json_of(*meta)),
{
    let doc = render_openapi(meta);
    render_doc_page(doc.as_str())
}

/// The description always references the documented route: the rendered
/// path stands in it, as a JSON string, whatever the metadata holds.
pub proof fn lemma_description_names_route_path(r: RouteMeta)
    ensures
        exists|i: int|
            0 <= i && i + json_string(r.path@).len() <= openapi_json_of(r).len()
                && #[trigger] openapi_json_of(r).subrange(
                i,
                i + json_string(r.path@).len() as int,
            ) == json_string(r.path@),
{
    reveal_strlit(
        "{\"openapi\":\"3.1.0\",\"info\":{\"title\":\"API\",\"version\":\"0.1.0\"},\"paths\":{",
    );
    let head =
        "{\"openapi\":\"3.1.0\",\"info\":{\"title\":\"API\",\"version\":\"0.1.0\"},\"paths\":{"@;
    let i: int = head.len() as int;
    let n: int = json_string(r.path@).len() as int;
    assert(openapi_json_of(r).subrange(i, i + n) =~= json_string(r.path@));
    assert(0 <= i && i + json_string(r.path@).len() <= openapi_json_of(r).len()
        && openapi_json_of(r).subrange(i, i + n) == json_string(r.path@));
}

/// The rendered parameter list names each declared parameter: the `k`-th
/// parameter's name stands in it as a JSON string.
pub proof fn lemma_params_json_names_each_param(ps: Seq<ParamMeta>, k: int)
    requires
        0 <= k < ps.len(),
    ensures
        exists|i: int|
            0 <= i && i + json_string(ps[k].name@).len() <= params_json_of(ps).len()
                && #[trigger] params_json_of(ps).subrange(
                i,
                i + json_string(ps[k].name@).len() as int,
            ) == json_string(ps[k].name@),
    decreases ps.len(),
{
    let n: int = json_string(ps[k].name@).len() as int;
    if k == ps.len() - 1 {
        reveal_strlit("{\"name\":");
        reveal_strlit(",");
        let i: int = if ps.len() == 1 {
            8
        } else {
            params_json_of(ps.drop_last()).len() as int + 1 + 8
        };
        assert(params_json_of(ps).subrange(i, i + n) =~= json_string(ps[k].name@));
        assert(0 <= i && i + json_string(ps[k].name@).len() <= params_json_of(ps).len()
            && params_json_of(ps).subrange(i, i + n) == json_string(ps[k].name@));
    } else {
        lemma_params_json_names_each_param(ps.drop_last(), k);
        assert(ps.drop_last()[k] == ps[k]);
        let i = choose|i: int|
            0 <= i && i + json_string(ps[k].name@).len() <= params_json_of(ps.drop_last()).len()
                && #[trigger] params_json_of(ps.drop_last()).subrange(i, i + n) == json_string(
                ps[k].name@,
            );
        assert(params_json_of(ps).subrange(i, i + n) =~= params_json_of(ps.drop_last()).subrange(
            i,
            i + n,
        ));
        assert(0 <= i && i + json_string(ps[k].name@).len() <= params_json_of(ps).len()
            && params_json_of(ps).subrange(i, i + n) == json_string(ps[k].name@));
    }
}

/// The description names each declared path parameter: the `k`-th
/// parameter's name stands in the rendered document as a JSON string.
pub proof fn lemma_description_names_each_param(r: RouteMeta, k: int)
    requires
        0 <= k < r.params@.len(),
    ensures
        exists|i: int|
            0 <= i && i + json_string(r.params@[k].name@).len() <= openapi_json_of(r).len()
                && #[trigger] openapi_json_of(r).subrange(
                i,
                i + json_string(r.params@[k].name@).len() as int,
            ) == json_string(r.params@[k].name@),
{
    lemma_params_json_names_each_param(r.params@, k);
    let n: int = json_string(r.params@[k].name@).len() as int;
    let j = choose|j: int|
        0 <= j && j + json_string(r.params@[k].name@).len() <= params_json_of(r.params@).len()
            && #[trigger] params_json_of(r.params@).subrange(j, j + n) == json_string(
            r.params@[k].name@,
        );
    reveal_strlit(
        "{\"openapi\":\"3.1.0\",\"info\":{\"title\":\"API\",\"version\":\"0.1.0\"},\"paths\":{",
    );
    reveal_strlit(":{");
    reveal_strlit(":{\"summary\":");
    reveal_strlit(",\"parameters\":[");
    let head =
        "{\"openapi\":\"3.1.0\",\"info\":{\"title\":\"API\",\"version\":\"0.1.0\"},\"paths\":{"@;
    let off: int = head.len() as int + json_string(r.path@).len() as int + 2 + json_string(
        r.method@,
    ).len() as int + 12 + json_string(r.summary@).len() as int + 15;
    assert(openapi_json_of(r).subrange(off + j, off + j + n) =~= params_json_of(
        r.params@,
    ).subrange(j, j + n));
    assert(0 <= off + j && off + j + json_string(r.params@[k].name@).len() <= openapi_json_of(
        r,
    ).len() && openapi_json_of(r).subrange(off + j, off + j + n) == json_string(
        r.params@[k].name@,
    ));
}

/// The reference page always carries the viewer element's marker: the
/// characters `api-reference` stand in it whatever the description is.
pub proof fn lemma_doc_page_has_viewer_marker(doc: Seq<char>)
    ensures
        exists|i: int|
            0 <= i && i + 13 <= doc_page_of(doc).len() && #[trigger] doc_page_of(doc).subrange(
                i,
                i + 13,
            ) == "api-reference"@,
{
    reveal_strlit(
        "<!doctype html>\n<html>\n<head>\n<title>API</title>\n<meta charset=\"utf-8\"/>\n<meta name=\"viewport\" content=\"width=device-width, initial-scale=1\"/>\n</head>\n<body>\n<script id=\"",
    );
    reveal_strlit("api-reference");
    let head =
        "<!doctype html>\n<html>\n<head>\n<title>API</title>\n<meta charset=\"utf-8\"/>\n<meta name=\"viewport\" content=\"width=device-width, initial-scale=1\"/>\n</head>\n<body>\n<script id=\""@;
    let i: int = head.len() as int;
    assert(doc_page_of(doc).subrange(i, i + 13) =~= "api-reference"@);
    assert(0 <= i && i + 13 <= doc_page_of(doc).len() && doc_page_of(doc).subrange(i, i + 13)
        == "api-reference"@);
}

} // verus!
