use vstd::prelude::*;
use crate::error::ApiError;
use crate::json_doc::{parse_json, string_member, text_member};

verus! {

/// The shared secrets that sign every call: the developer id and the
/// authentication token.
#[derive(Clone, Debug)]
pub struct Credentials {
    pub dev_id: String,
    pub token: String,
}

impl Credentials {
    pub fn new(dev_id: String, token: String) -> (r: Credentials)
        ensures
            r.dev_id@ == dev_id@,
            r.token@ == token@,
    {
        Credentials { dev_id, token }
    }

    /// Reads the credentials from a JSON object with the string members
    /// `dev_id` and `token`.
    pub fn from_json(text: &str) -> (r: Result<Credentials, ApiError>)
        ensures
            r is Ok <==> text_member(text@, "dev_id"@) is Some && text_member(text@, "token"@) is Some,
            r matches Ok(c) ==> Some(c.dev_id@) == text_member(text@, "dev_id"@)
                && Some(c.token@) == text_member(text@, "token"@),
            r matches Err(e) ==> e == ApiError::CredentialRead,
    {
        let v = match parse_json(text) {
            Ok(v) => v,
            Err(_) => {
                return Err(ApiError::CredentialRead);
            },
        };
        let dev_id = match string_member(&v, "dev_id") {
            Some(s) => s,
            None => {
                return Err(ApiError::CredentialRead);
            },
        };
        let token = match string_member(&v, "token") {
            Some(s) => s,
            None => {
                return Err(ApiError::CredentialRead);
            },
        };
        Ok(Credentials { dev_id, token })
    }
}

} // verus!
