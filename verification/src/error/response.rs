//! The answer a client receives for a failed request.

use vstd::prelude::*;

verus! {

/// 201 Created.
pub const CREATED: u16 = 201;

/// 401 Unauthorized.
pub const UNAUTHORIZED: u16 = 401;

/// 404 Not Found.
pub const NOT_FOUND: u16 = 404;

/// 409 Conflict.
pub const CONFLICT: u16 = 409;

/// 500 Internal Server Error.
pub const INTERNAL_SERVER_ERROR: u16 = 500;

/// What `serde_json` writes for the JSON object with the single member
/// `key: value`, both strings.
pub uninterp spec fn json_object_text(key: Seq<char>, value: Seq<char>) -> Seq<char>;

/// `serde_json::Value::to_string` on an object built with `serde_json::Map::insert`:
/// the compact JSON text of `{key: value}`. The escaping of both strings is
/// serde_json's and is not spelled out here.
#[verifier::external_body]
fn json_object(key: &str, value: &str) -> (text: String)
    ensures
        text@ == json_object_text(key@, value@),
{
    let mut members = serde_json::Map::new();
    members.insert(key.to_string(), serde_json::Value::String(value.to_string()));
    serde_json::Value::Object(members).to_string()
}

/// A status code and the message that is safe to show to the client.
#[derive(Debug, Clone, PartialEq, Eq)]
pub struct ErrorResponse {
    pub status: u16,
    pub message: String,
}

impl ErrorResponse {
    /// The response body: the JSON object `{"message": <message>}`.
    pub fn body(&self) -> (text: String)
        ensures
            text@ == json_object_text("message"@, self.message@),
    {
        json_object("message", self.message.as_str())
    }
}

} // verus!
