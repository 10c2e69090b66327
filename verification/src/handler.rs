//! The user-lookup handler: a canned record for every identifier but the
//! reserved all-zero one.
use crate::json_text::json_escaped;
use crate::user::bool_json;
use crate::user::user_to_json;
use crate::user::User;
use crate::user_id::canonical_of;
use crate::user_id::is_lower_canonical_uuid;
use crate::user_id::lemma_canonical_injective;
use crate::user_id::lemma_string_round_trip;
use crate::user_id::nil_bytes;
use crate::user_id::uuid_bytes_of;
use crate::user_id::UserId;
use vstd::prelude::*;

verus! {

/// The media type of a response body.
#[derive(Clone, Copy, Debug, PartialEq, Eq, Structural)]
pub enum ContentType {
    Json,
    PlainText,
    Html,
}

impl ContentType {
    /// The media-type header value of this body kind.
    pub fn mime_type(&self) -> (r: &'static str)
        ensures
            *self is Json ==> r@ == "application/json"@,
            *self is PlainText ==> r@ == "text/plain; charset=utf-8"@,
            *self is Html ==> r@ == "text/html; charset=utf-8"@,
    {
        match self {
            ContentType::Json => "application/json",
            ContentType::PlainText => "text/plain; charset=utf-8",
            ContentType::Html => "text/html; charset=utf-8",
        }
    }
}

/// An HTTP response: a status code, a body kind, and the body text.
pub struct HttpResponse {
    pub status: u16,
    pub content_type: ContentType,
    pub body: String,
}

/// The JSON body returned for a non-nil identifier: the canned record with
/// the requested identifier in canonical form.
pub open spec fn user_body_of(id: Seq<u8>) -> Seq<char> {
    "{\"uuid\":\""@ + canonical_of(id) + "\",\"firstName\":\""@ + json_escaped("Jane"@)
        + "\",\"lastName\":\""@ + json_escaped("Doe"@) + "\",\"email\":\""@ + json_escaped(
        "jane.doe@example.com"@,
    ) + "\",\"enabled\":"@ + bool_json(true) + ",\"activated\":"@ + bool_json(true) + "}"@
}

/// Produces the response for a parsed identifier: 404 for the reserved
/// all-zero identifier, otherwise 200 with the canned record as JSON.
pub fn get_user_by_id(user_id: UserId) -> (r: HttpResponse)
    ensures
        user_id@ == nil_bytes() ==> r.status == 404 && r.content_type is PlainText && r.body@
            == "User not found"@,
        user_id@ != nil_bytes() ==> r.status == 200 && r.content_type is Json && r.body@
            == user_body_of(user_id@),
{
    if user_id.is_nil() {
        return HttpResponse {
            status: 404,
            content_type: ContentType::PlainText,
            body: String::from_str("User not found"),
        };
    }
    let user = User {
        uuid: user_id,
        first_name: String::from_str("Jane"),
        last_name: String::from_str("Doe"),
        email: String::from_str("jane.doe@example.com"),
        enabled: true,
        activated: true,
    };
    let body = user_to_json(&user);
    HttpResponse { status: 200, content_type: ContentType::Json, body }
}

/// The defensive catch-all response of the error taxonomy: status 500 with
/// a fixed plain-text body.
pub fn unknown_error_response() -> (r: HttpResponse)
    ensures
        r.status == 500,
        r.content_type is PlainText,
        r.body@ == "Unknown error"@,
{
    HttpResponse {
        status: 500,
        content_type: ContentType::PlainText,
        body: String::from_str("Unknown error"),
    }
}

/// The `uuid` field of the JSON body stands at a fixed place: characters 9
/// through 44 hold exactly the canonical text of the identifier.
pub proof fn lemma_user_body_uuid_field(id: Seq<u8>)
    requires
        id.len() == 16,
    ensures
        user_body_of(id).len() > 45,
        user_body_of(id).subrange(9, 45) == canonical_of(id),
{
    reveal_strlit("{\"uuid\":\"");
    assert(("{\"uuid\":\"")@.len() == 9);
    reveal_strlit("\",\"firstName\":\"");
    assert(user_body_of(id).subrange(9, 45) =~= canonical_of(id));
}

/// A response echoes exactly the identifier that was requested: for a
/// lower-case canonical identifier string, the `uuid` field of the body
/// built for its bytes is that very string.
pub proof fn lemma_lookup_echoes_requested_id(s: Seq<char>)
    requires
        is_lower_canonical_uuid(s),
    ensures
        user_body_of(uuid_bytes_of(s)).subrange(9, 45) == s,
{
    lemma_string_round_trip(s);
    lemma_user_body_uuid_field(uuid_bytes_of(s));
}

/// Requests never interfere: distinct identifiers give distinct bodies,
/// each carrying only its own identifier; with the handler's contract,
/// every response is a function of its own request alone.
pub proof fn lemma_distinct_ids_distinct_bodies(a: Seq<u8>, b: Seq<u8>)
    requires
        a.len() == 16,
        b.len() == 16,
        a != b,
    ensures
        user_body_of(a) != user_body_of(b),
{
    lemma_canonical_injective(a, b);
    if user_body_of(a) == user_body_of(b) {
        lemma_user_body_uuid_field(a);
        lemma_user_body_uuid_field(b);
        assert(canonical_of(a) == canonical_of(b));
    }
}

} // verus!
