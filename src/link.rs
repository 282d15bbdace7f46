use vstd::prelude::*;
use crate::credentials::Credentials;
use crate::error::ApiError;
use crate::signature::{make_signature, signature_is_deterministic_hex, signature_of};
use crate::text::{is_decimal_char, is_lower_hex_char};
use crate::timestamp::{current_timestamp, lemma_timestamp_text_shape, Timestamp};

verus! {

/// The service endpoint that every request URL starts with.
pub const BASE_LINK: &'static str = "http://api.smitegame.com/smiteapi.svc";

/// The method that opens a session.
pub const SESSION_METHOD: &'static str = "createsession";

/// `{base}/createsessionjson/{dev_id}/{signature}/{time}`.
pub open spec fn session_link(dev_id: Seq<char>, token: Seq<char>, time: Seq<char>) -> Seq<char> {
    BASE_LINK@ + "/"@ + SESSION_METHOD@ + "json/"@ + dev_id + "/"@
        + signature_of(dev_id, SESSION_METHOD@, token, time) + "/"@ + time
}

/// `{base}/{method}json/{dev_id}/{signature}/{session_id}/{query_time}`, where
/// the signature is taken at `time`.
pub open spec fn method_link(
    method: Seq<char>,
    dev_id: Seq<char>,
    token: Seq<char>,
    session_id: Seq<char>,
    query_time: Seq<char>,
    time: Seq<char>,
) -> Seq<char> {
    BASE_LINK@ + "/"@ + method + "json/"@ + dev_id + "/"@ + signature_of(dev_id, method, token, time)
        + "/"@ + session_id + "/"@ + query_time
}

/// The session-creation URL, signed at `now`.
pub fn session_link_at(creds: &Credentials, now: &Timestamp) -> (r: String)
    ensures
        r@ == session_link(creds.dev_id@, creds.token@, now.text()),
{
    let time = now.to_text();
    let signature = make_signature(creds.dev_id.as_str(), SESSION_METHOD, creds.token.as_str(), time.as_str());
    let mut link = BASE_LINK.to_owned();
    link.append("/");
    link.append(SESSION_METHOD);
    link.append("json/");
    link.append(creds.dev_id.as_str());
    link.append("/");
    link.append(signature.as_str());
    link.append("/");
    link.append(time.as_str());
    link
}

/// The URL of a call of `method` in session `session_id`, for the data of
/// `query_time`, signed at `now`.
pub fn method_link_at(
    method: &str,
    creds: &Credentials,
    session_id: &str,
    query_time: &str,
    now: &Timestamp,
) -> (r: String)
    ensures
        r@ == method_link(method@, creds.dev_id@, creds.token@, session_id@, query_time@, now.text()),
{
    let time = now.to_text();
    let signature = make_signature(creds.dev_id.as_str(), method, creds.token.as_str(), time.as_str());
    let mut link = BASE_LINK.to_owned();
    link.append("/");
    link.append(method);
    link.append("json/");
    link.append(creds.dev_id.as_str());
    link.append("/");
    link.append(signature.as_str());
    link.append("/");
    link.append(session_id);
    link.append("/");
    link.append(query_time);
    link
}

/// The session-creation URL, signed at the current time.
pub fn create_session_link(creds: &Credentials) -> (r: Result<String, ApiError>)
    ensures
        r matches Ok(s) ==> exists|t: Timestamp| t.wf() && s@ == session_link(creds.dev_id@, creds.token@, t.text()),
        r matches Err(e) ==> e == ApiError::ClockOutOfRange,
{
    let now = current_timestamp()?;
    Ok(session_link_at(creds, &now))
}

/// The URL of a call of `method` in session `session_id`, for the data of
/// `timestamp`, signed at the current time (not at `timestamp`).
pub fn create_link(method: &str, creds: &Credentials, session_id: &str, timestamp: &str) -> (r: Result<
    String,
    ApiError,
>)
    ensures
        r matches Ok(s) ==> exists|t: Timestamp|
            t.wf() && s@ == method_link(method@, creds.dev_id@, creds.token@, session_id@, timestamp@, t.text()),
        r matches Err(e) ==> e == ApiError::ClockOutOfRange,
{
    let now = current_timestamp()?;
    Ok(method_link_at(method, creds, session_id, timestamp, &now))
}

/// A session-creation URL is `{base}/createsessionjson/{dev_id}/{signature}/{time}`,
/// where the signature is thirty-two lowercase hexadecimal characters and the
/// time fourteen decimal digits.
pub proof fn session_link_matches_template(dev_id: Seq<char>, token: Seq<char>, now: Timestamp)
    requires
        now.wf(),
    ensures
        exists|signature: Seq<char>, time: Seq<char>|
            #![trigger signature.len(), time.len()]
            session_link(dev_id, token, now.text()) == BASE_LINK@ + "/createsessionjson/"@ + dev_id + "/"@
                + signature + "/"@ + time
            && signature.len() == 32
            && (forall|i: int| 0 <= i < 32 ==> is_lower_hex_char(#[trigger] signature[i]))
            && time.len() == 14
            && (forall|i: int| 0 <= i < 14 ==> is_decimal_char(#[trigger] time[i])),
{
    reveal_strlit("/createsessionjson/");
    reveal_strlit("/");
    reveal_strlit("createsession");
    reveal_strlit("json/");
    let time = now.text();
    let signature = signature_of(dev_id, SESSION_METHOD@, token, time);
    signature_is_deterministic_hex(dev_id, SESSION_METHOD@, token, time, dev_id, SESSION_METHOD@, token, time);
    lemma_timestamp_text_shape(now);
    assert("/"@ + SESSION_METHOD@ + "json/"@ =~= "/createsessionjson/"@);
    assert(session_link(dev_id, token, time) =~= BASE_LINK@ + "/createsessionjson/"@ + dev_id + "/"@
        + signature + "/"@ + time);
}

} // verus!
