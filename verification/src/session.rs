//! The body of the request that opens a session.
//!
//! The body is a JSON object with the members `identifier` and `password`, in
//! that order and without white space. How a text is written as a JSON string
//! is left to `serde_json`; the object around the two strings is made here.

use vstd::prelude::*;
use vstd::string::*;

verus! {

/// The JSON string that `serde_json` writes for the text `text`: the text in
/// double quotes, with the characters escaped that JSON asks to be escaped.
pub uninterp spec fn json_string(text: Seq<char>) -> Seq<char>;

/// Writes `text` as a JSON string, by the `Display` of `serde_json::Value` on
/// a `Value::String`. The result depends on the text alone; nothing more is
/// claimed of it than that it is the string named `json_string`.
#[verifier::external_body]
fn encode_json_string(text: &str) -> (encoded: String)
    ensures
        encoded@ == json_string(text@),
{
    serde_json::Value::String(text.to_owned()).to_string()
}

/// The object that holds the two JSON strings `identifier` and `secret` as
/// its members `identifier` and `password`.
pub open spec fn session_object(identifier: Seq<char>, secret: Seq<char>) -> Seq<char> {
    "{\"identifier\":"@ + identifier + ",\"password\":"@ + secret + "}"@
}

/// The body that opens a session for the identifier and the secret.
pub open spec fn session_request(identifier: Seq<char>, secret: Seq<char>) -> Seq<char> {
    session_object(json_string(identifier), json_string(secret))
}

/// Puts two JSON strings into the object of a session request.
pub fn frame_session_request(identifier: &str, secret: &str) -> (body: String)
    ensures
        body@ == session_object(identifier@, secret@),
{
    let mut body = String::from_str("{\"identifier\":");
    body.append(identifier);
    body.append(",\"password\":");
    body.append(secret);
    body.append("}");
    body
}

/// The body of the request that opens a session for `identifier` and `secret`.
pub fn session_body(identifier: &str, secret: &str) -> (body: String)
    ensures
        body@ == session_request(identifier@, secret@),
{
    let identifier = encode_json_string(identifier);
    let secret = encode_json_string(secret);
    frame_session_request(identifier.as_str(), secret.as_str())
}

} // verus!
