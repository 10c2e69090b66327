//! The user record and its JSON text form, with lower-camel-case field
//! names.
use crate::json_text::append_json_escaped;
use crate::json_text::json_escaped;
use crate::user_id::canonical_of;
use crate::user_id::UserId;
use vstd::prelude::*;

verus! {

/// A user account record, synthesized per request and never stored.
pub struct User {
    /// Unique identifier for the user.
    pub uuid: UserId,
    /// First name of the user.
    pub first_name: String,
    /// Last name of the user.
    pub last_name: String,
    /// Email address of the user.
    pub email: String,
    /// Whether the user's account is enabled.
    pub enabled: bool,
    /// Whether the user's account is activated.
    pub activated: bool,
}

/// The JSON text of a boolean.
pub open spec fn bool_json(b: bool) -> Seq<char> {
    if b {
        "true"@
    } else {
        "false"@
    }
}

/// The JSON object text of a user record: six lower-camel-case fields, the
/// identifier in canonical form, the string fields escaped.
pub open spec fn json_of_user(u: User) -> Seq<char> {
    "{\"uuid\":\""@ + canonical_of(u.uuid@) + "\",\"firstName\":\""@ + json_escaped(u.first_name@)
        + "\",\"lastName\":\""@ + json_escaped(u.last_name@) + "\",\"email\":\""@ + json_escaped(
        u.email@,
    ) + "\",\"enabled\":"@ + bool_json(u.enabled) + ",\"activated\":"@ + bool_json(u.activated)
        + "}"@
}

/// Appends the JSON text of a boolean to `out`.
fn append_bool(out: &mut String, b: bool)
    ensures
        final(out)@ == old(out)@ + bool_json(b),
{
    if b {
        out.append("true");
    } else {
        out.append("false");
    }
}

/// Serializes a user record to its JSON object text.
pub fn user_to_json(u: &User) -> (r: String)
    ensures
        r@ == json_of_user(*u),
{
    let mut out = String::from_str("{\"uuid\":\"");
    let id_text = u.uuid.to_canonical();
    out.append(id_text.as_str());
    out.append("\",\"firstName\":\"");
    append_json_escaped(&mut out, u.first_name.as_str());
    out.append("\",\"lastName\":\"");
    append_json_escaped(&mut out, u.last_name.as_str());
    out.append("\",\"email\":\"");
    append_json_escaped(&mut out, u.email.as_str());
    out.append("\",\"enabled\":");
    append_bool(&mut out, u.enabled);
    out.append(",\"activated\":");
    append_bool(&mut out, u.activated);
    out.append("}");
    out
}

} // verus!
