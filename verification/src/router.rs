//! The request router: dispatch by method and path to the user-lookup
//! handler or the documentation page, with a default not-found response.
use crate::docs::api_doc_page;
use crate::docs::doc_page_of;
use crate::docs::openapi_json_of;
use crate::docs::RouteMeta;
use crate::handler::get_user_by_id;
use crate::handler::user_body_of;
use crate::handler::ContentType;
use crate::handler::HttpResponse;
use crate::user_id::is_canonical_uuid;
use crate::user_id::nil_bytes;
use crate::user_id::parse_user_id;
use crate::user_id::uuid_bytes_of;
use vstd::prelude::*;

verus! {

/// Character-wise string equality.
pub fn str_eq(a: &str, b: &str) -> (r: bool)
    ensures
        r == (a@ == b@),
{
    let na: usize = a.unicode_len();
    let nb: usize = b.unicode_len();
    if na != nb {
        return false;
    }
    let mut i: usize = 0;
    while i < na
        invariant
            i <= na,
            na == a@.len(),
            na == b@.len(),
            forall|t: int| 0 <= t < i ==> a@[t] == b@[t],
        decreases na - i,
    {
        if a.get_char(i) != b.get_char(i) {
            return false;
        }
        i += 1;
    }
    proof {
        assert(a@ =~= b@);
    }
    true
}

/// A path the user-lookup route matches: `/users/` followed by one
/// non-empty segment without a further slash.
pub open spec fn is_users_path(p: Seq<char>) -> bool {
    &&& p.len() > 7
    &&& p.subrange(0, 7) == "/users/"@
    &&& forall|i: int| 7 <= i < p.len() ==> #[trigger] p[i] != '/'
}

/// The path segment standing for the requested identifier.
pub open spec fn users_segment(p: Seq<char>) -> Seq<char> {
    p.subrange(7, p.len() as int)
}

/// Extracts the identifier segment of a user-lookup path, or rejects the
/// path.
pub fn match_users_path(path: &str) -> (r: Option<&str>)
    ensures
        r is Some <==> is_users_path(path@),
        r is Some ==> r->0@ == users_segment(path@),
{
    proof {
        reveal_strlit("/users/");
    }
    let n: usize = path.unicode_len();
    if n <= 7 {
        return None;
    }
    let mut i: usize = 0;
    while i < 7
        invariant
            i <= 7,
            n == path@.len(),
            n > 7,
            forall|t: int| 0 <= t < i ==> path@[t] == "/users/"@[t],
        decreases 7 - i,
    {
        proof {
            reveal_strlit("/users/");
        }
        let c = path.get_char(i);
        let e = "/users/".get_char(i);
        if c != e {
            proof {
                assert(path@.subrange(0, 7)[i as int] != "/users/"@[i as int]);
            }
            return None;
        }
        i += 1;
    }
    proof {
        assert(path@.subrange(0, 7) =~= "/users/"@);
    }
    let mut j: usize = 7;
    while j < n
        invariant
            7 <= j <= n,
            n == path@.len(),
            forall|t: int| 7 <= t < j ==> #[trigger] path@[t] != '/',
        decreases n - j,
    {
        if path.get_char(j) == '/' {
            return None;
        }
        j += 1;
    }
    Some(path.substring_char(7, n))
}

/// Dispatches one request: the user-lookup route with its identifier
/// parse, the documentation page, or the default not-found response.
pub fn handle_request(method: &str, path: &str, meta: &RouteMeta) -> (r: HttpResponse)
    ensures
        method@ == "GET"@ && is_users_path(path@) && !is_canonical_uuid(users_segment(path@))
            ==> r.status == 400 && r.content_type is PlainText && r.body@ == "Invalid user id"@,
        method@ == "GET"@ && is_users_path(path@) && is_canonical_uuid(users_segment(path@))
            && uuid_bytes_of(users_segment(path@)) == nil_bytes() ==> r.status == 404
            && r.content_type is PlainText && r.body@ == "User not found"@,
        method@ == "GET"@ && is_users_path(path@) && is_canonical_uuid(users_segment(path@))
            && uuid_bytes_of(users_segment(path@)) != nil_bytes() ==> r.status == 200
            && r.content_type is Json && r.body@ == user_body_of(uuid_bytes_of(users_segment(path@))),
        method@ == "GET"@ && path@ == "/api"@ ==> r.status == 200 && r.content_type is Html
            && r.body@ == doc_page_of(openapi_json_of(*meta)),
        method@ != "GET"@ || (!is_users_path(path@) && path@ != "/api"@) ==> r.status == 404
            && r.content_type is PlainText && r.body@ == Seq::<char>::empty(),
{
    proof {
        reveal_strlit("/api");
    }
    if !str_eq(method, "GET") {
        return HttpResponse {
            status: 404,
            content_type: ContentType::PlainText,
            body: String::new(),
        };
    }
    match match_users_path(path) {
        Some(seg) => match parse_user_id(seg) {
            Some(id) => get_user_by_id(id),
            None => HttpResponse {
                status: 400,
                content_type: ContentType::PlainText,
                body: String::from_str("Invalid user id"),
            },
        },
        None => {
            if str_eq(path, "/api") {
                HttpResponse {
                    status: 200,
                    content_type: ContentType::Html,
                    body: api_doc_page(meta),
                }
            } else {
                HttpResponse {
                    status: 404,
                    content_type: ContentType::PlainText,
                    body: String::new(),
                }
            }
        },
    }
}

} // verus!
