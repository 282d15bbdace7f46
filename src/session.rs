use vstd::prelude::*;
use crate::error::ApiError;
use crate::json_doc::{parse_json, string_member, text_member, text_string_members};
use crate::credentials::Credentials;
use crate::link::{session_link, session_link_at};
use crate::text::is_decimal_char;
use crate::timestamp::{
    current_timestamp, earlier_timestamp_exists, lemma_instant_injective, lemma_timestamp_text_shape, Timestamp,
};

verus! {

/// Seconds taken off the local clock when stamping a new session, as a
/// margin against clock skew between client and server.
pub const SAFETY_MARGIN_SECS: u32 = 15;

/// A session opened with the service: its id and the local time it is
/// counted from.
#[derive(Clone, Debug)]
pub struct Session {
    pub id: String,
    pub timestamp: String,
}

/// What opening a session yields, given what the transport handed back
/// (`None` for a transport failure) and the current time: the session's id
/// and timestamp, or the error.
pub open spec fn session_outcome(fetched: Option<Seq<char>>, now: Timestamp) -> Result<(Seq<char>, Seq<char>), ApiError> {
    match fetched {
        None => Err(ApiError::Transport),
        Some(body) => if text_member(body, "id"@) is None || text_member(body, "timestamp"@) is None {
            Err(ApiError::MalformedResponse)
        } else if now.instant() < SAFETY_MARGIN_SECS {
            Err(ApiError::ClockOutOfRange)
        } else {
            Ok((text_member(body, "id"@)->Some_0, corrected_text(now)))
        },
    }
}

pub open spec fn text_of(o: Option<String>) -> Option<Seq<char>> {
    match o {
        Some(s) => Some(s@),
        None => None,
    }
}

/// The text of the timestamp `SAFETY_MARGIN_SECS` seconds before `now`.
pub open spec fn corrected_text(now: Timestamp) -> Seq<char> {
    (choose|t: Timestamp| t.wf() && t.instant() == now.instant() - SAFETY_MARGIN_SECS).text()
}

/// Finishes opening a session from the transport's answer to the
/// session-creation request (`None` when the transport failed), at the
/// current time `now`. The server's timestamp is replaced by `now` less the
/// safety margin, computed on the calendar.
pub fn complete_session(fetched: Option<String>, now: &Timestamp) -> (r: Result<Session, ApiError>)
    requires
        now.wf(),
    ensures
        match (r, session_outcome(text_of(fetched), *now)) {
            (Ok(s), Ok((id, stamp))) => s.id@ == id && s.timestamp@ == stamp,
            (Err(e), Err(e2)) => e == e2,
            _ => false,
        },
{
    let body = match fetched {
        Some(b) => b,
        None => {
            return Err(ApiError::Transport);
        },
    };
    let v = match parse_json(body.as_str()) {
        Ok(v) => v,
        Err(_) => {
            return Err(ApiError::MalformedResponse);
        },
    };
    let id = match string_member(&v, "id") {
        Some(s) => s,
        None => {
            return Err(ApiError::MalformedResponse);
        },
    };
    if string_member(&v, "timestamp").is_none() {
        return Err(ApiError::MalformedResponse);
    }
    match now.minus_seconds(SAFETY_MARGIN_SECS) {
        Some(t) => {
            proof {
                lemma_instant_injective(t, choose|c: Timestamp| c.wf() && c.instant() == now.instant() - SAFETY_MARGIN_SECS);
            }
            Ok(Session { id, timestamp: t.to_text() })
        },
        None => Err(ApiError::ClockOutOfRange),
    }
}

/// Opens a session: builds the session-creation URL signed at the current
/// time, hands it to `fetch` (which performs the GET and returns the body, or
/// `None` when the transport fails), and completes the session from the
/// answer at the current time.
pub fn make_session<F: Fn(&str) -> Option<String>>(creds: &Credentials, fetch: F) -> (r: Result<Session, ApiError>)
    requires
        forall|link: &str| fetch.requires((link,)),
    ensures
        r matches Err(e) ==> e == ApiError::ClockOutOfRange || exists|signed_at: Timestamp, link: &str, fetched: Option<String>, now: Timestamp|
            signed_at.wf() && now.wf()
            && link@ == session_link(creds.dev_id@, creds.token@, signed_at.text())
            && fetch.ensures((link,), fetched)
            && session_outcome(text_of(fetched), now) == Err::<(Seq<char>, Seq<char>), ApiError>(e),
        r matches Ok(s) ==> exists|signed_at: Timestamp, link: &str, fetched: Option<String>, now: Timestamp|
            signed_at.wf() && now.wf()
            && link@ == session_link(creds.dev_id@, creds.token@, signed_at.text())
            && fetch.ensures((link,), fetched)
            && session_outcome(text_of(fetched), now) == Ok::<(Seq<char>, Seq<char>), ApiError>((s.id@, s.timestamp@)),
{
    let signed_at = current_timestamp()?;
    let link = session_link_at(creds, &signed_at);
    let fetched = fetch(link.as_str());
    let now = current_timestamp()?;
    let r = complete_session(fetched, &now);
    proof {
        let fv = text_of(fetched);
        if r is Ok {
            let s = r->Ok_0;
            assert(session_outcome(fv, now) == Ok::<(Seq<char>, Seq<char>), ApiError>((s.id@, s.timestamp@)));
        } else {
            let e = r->Err_0;
            assert(session_outcome(fv, now) == Err::<(Seq<char>, Seq<char>), ApiError>(e));
        }
    }
    r
}

/// A transport failure ends session creation with `Transport`, and no session.
pub proof fn transport_failure_yields_no_session(now: Timestamp)
    ensures
        session_outcome(None, now) == Err::<(Seq<char>, Seq<char>), ApiError>(ApiError::Transport),
{
}

/// A body that is not a JSON document ends session creation with
/// `MalformedResponse`, which is not `Transport`.
pub proof fn unparsable_body_is_malformed_response(body: Seq<char>, now: Timestamp)
    requires
        text_string_members(body) is None,
    ensures
        session_outcome(Some(body), now) == Err::<(Seq<char>, Seq<char>), ApiError>(ApiError::MalformedResponse),
        ApiError::MalformedResponse != ApiError::Transport,
{
}

/// When the server answers with string members `id` and `timestamp`, the
/// session opens, with the server's id and, in place of the server's
/// timestamp, the fourteen-digit text of the valid timestamp exactly
/// `SAFETY_MARGIN_SECS` seconds before `now` on the calendar. This holds for
/// every `now` at least that many seconds after the start of year 0.
pub proof fn session_stamp_is_calendar_corrected(body: Seq<char>, now: Timestamp)
    requires
        now.wf(),
        now.instant() >= SAFETY_MARGIN_SECS,
        text_member(body, "id"@) is Some,
        text_member(body, "timestamp"@) is Some,
    ensures
        session_outcome(Some(body), now) is Ok,
        session_outcome(Some(body), now)->Ok_0.0 == text_member(body, "id"@)->Some_0,
        exists|t: Timestamp|
            t.wf() && t.instant() == now.instant() - SAFETY_MARGIN_SECS
            && #[trigger] t.text() == session_outcome(Some(body), now)->Ok_0.1,
        session_outcome(Some(body), now)->Ok_0.1.len() == 14,
        forall|i: int| 0 <= i < 14 ==> is_decimal_char(#[trigger] session_outcome(Some(body), now)->Ok_0.1[i]),
{
    earlier_timestamp_exists(now, SAFETY_MARGIN_SECS as nat);
    let t = choose|t: Timestamp| t.wf() && t.instant() == now.instant() - SAFETY_MARGIN_SECS;
    lemma_timestamp_text_shape(t);
}

} // verus!
