//! What the agent's replies mean, stated over the shape of the JSON they
//! carry: the laws that the operations of `api` obey.

use vstd::prelude::*;
use crate::api::{
    bearer, endpoint_url, create_session_outcome, health_status, list_sessions_outcome, poll_outcome, reply_text,
    send_message_outcome, session_busy_outcome, session_result_of, sessions_of, Reply,
};
use crate::json::{Document, Json, JsonNumber, parsed_json};
use crate::status::ConnectionStatus;
use crate::text::decimal;

verus! {

/// A request URL is the server URL with its trailing slashes removed, and
/// nothing else removed, followed by the path.
pub proof fn lemma_endpoint_url(base_url: Seq<char>, path: Seq<char>)
    ensures
        exists|n: int|
            0 <= n <= base_url.len() && endpoint_url(base_url, path) == base_url.take(n) + path && (n
                > 0 ==> base_url[n - 1] != '/') && forall|j: int|
                n <= j < base_url.len() ==> #[trigger] base_url[j] == '/',
{
    crate::text::lemma_without_trailing(base_url, '/');
    let t = crate::text::without_trailing(base_url, '/');
    let n = t.len() as int;
    if n > 0 {
        assert(t[n - 1] == base_url.take(n)[n - 1]);
    }
    assert(endpoint_url(base_url, path) == base_url.take(n) + path);
}

/// A key is sent as `Bearer <key>`, and no header goes with an empty key.
pub proof fn lemma_bearer(api_key: Seq<char>)
    ensures
        bearer(api_key) is None <==> api_key.len() == 0,
        bearer(api_key) matches Some(h) ==> h == "Bearer "@ + api_key,
{
}

/// The report counts an active agent: `active_agents` is a positive integer.
pub open spec fn reports_active_agents(body: Json) -> bool {
    match body.field("active_agents"@) {
        Some(Json::Number(JsonNumber::PosInt(n))) => n > 0,
        _ => false,
    }
}

/// The report says the gateway is busy: `gateway_busy` is `true`.
pub open spec fn reports_gateway_busy(body: Json) -> bool {
    body.field("gateway_busy"@) == Some(Json::Bool(true))
}

/// The report says the gateway is running: `gateway_state` is `"running"`.
pub open spec fn reports_running(body: Json) -> bool {
    match body.field("gateway_state"@) {
        Some(Json::Str(s)) => s@ == "running"@,
        _ => false,
    }
}

/// A health report means busy exactly when it counts an active agent or says
/// the gateway is busy; idle exactly when it does neither and says the
/// gateway is running; disconnected in every other case.  A 2xx poll reply
/// carrying the report means the same.
pub proof fn lemma_health_report_meaning(body: Json, status: u16, text: String)
    ensures
        (health_status(body) == ConnectionStatus::Busy) == (reports_active_agents(body)
            || reports_gateway_busy(body)),
        (health_status(body) == ConnectionStatus::Idle) == (!reports_active_agents(body)
            && !reports_gateway_busy(body) && reports_running(body)),
        (health_status(body) == ConnectionStatus::Disconnected) == (!reports_active_agents(body)
            && !reports_gateway_busy(body) && !reports_running(body)),
        200 <= status < 300 ==> poll_outcome(
            Reply::Answered(status, Ok(Document { value: body, text })),
        ) == health_status(body),
{
    crate::api::lemma_busy_wins(body);
}

/// A chat answer whose `message.content` is a string says exactly that
/// string, whole.
pub proof fn lemma_chat_direct_content(text: Seq<char>, j: Json, m: Json, c: String)
    requires
        j.field("message"@) == Some(m),
        m.field("content"@) == Some(Json::Str(c)),
    ensures
        reply_text(text, Some(j)) == c@,
{
}

/// Where `message.content` is not a string, an answer whose
/// `choices[0].message.content` is a string says exactly that string.
pub proof fn lemma_chat_choice_content(text: Seq<char>, j: Json, choices: Vec<Json>, m: Json, c: String)
    requires
        match j.field("message"@) {
            Some(mm) => match mm.field("content"@) {
                Some(Json::Str(_)) => false,
                _ => true,
            },
            None => true,
        },
        j.field("choices"@) == Some(Json::Array(choices)),
        choices@.len() > 0,
        choices@[0].field("message"@) == Some(m),
        m.field("content"@) == Some(Json::Str(c)),
    ensures
        reply_text(text, Some(j)) == c@,
{
}

/// Where neither of those is a string, an answer whose
/// `choices[0].delta.content` is a string says exactly that string.
pub proof fn lemma_chat_delta_content(text: Seq<char>, j: Json, choices: Vec<Json>, d: Json, c: String)
    requires
        match j.field("message"@) {
            Some(mm) => match mm.field("content"@) {
                Some(Json::Str(_)) => false,
                _ => true,
            },
            None => true,
        },
        j.field("choices"@) == Some(Json::Array(choices)),
        choices@.len() > 0,
        match choices@[0].field("message"@) {
            Some(mm) => match mm.field("content"@) {
                Some(Json::Str(_)) => false,
                _ => true,
            },
            None => true,
        },
        choices@[0].field("delta"@) == Some(d),
        d.field("content"@) == Some(Json::Str(c)),
    ensures
        reply_text(text, Some(j)) == c@,
{
}

/// A chat answer that is not JSON says its body as it came.
pub proof fn lemma_chat_plain_text(text: Seq<char>)
    ensures
        reply_text(text, None) == text,
{
}

/// A 2xx chat reply whose parsed body has a string at `message.content`
/// gives exactly that string; a non-2xx reply is an error naming its status.
pub proof fn lemma_send_message_content(status: u16, text: String, j: Json, m: Json, c: String)
    requires
        parsed_json(text@) == Some(j),
        j.field("message"@) == Some(m),
        m.field("content"@) == Some(Json::Str(c)),
    ensures
        200 <= status < 300 ==> send_message_outcome(Reply::Answered(status, Ok(text))) == Ok::<
            Seq<char>,
            Seq<char>,
        >(c@),
        !(200 <= status < 300) ==> send_message_outcome(Reply::Answered(status, Ok(text))) == Err::<
            Seq<char>,
            Seq<char>,
        >("HTTP "@ + decimal(status as nat) + ": "@ + text@),
{
}

/// The run with status `"in_progress"` at position `i` of a 2xx list of runs
/// makes the session busy, wherever it stands.
pub proof fn lemma_run_in_progress_anywhere(status: u16, doc: Document, runs: Vec<Json>, i: int, st: String)
    requires
        200 <= status < 300,
        doc.value.field("data"@) == Some(Json::Array(runs)),
        0 <= i < runs@.len(),
        runs@[i].field("status"@) == Some(Json::Str(st)),
        st@ == "in_progress"@,
    ensures
        session_busy_outcome(Reply::Answered(status, Ok(doc))),
{
    assert(crate::api::run_in_progress(runs@[i]));
}

/// A busy answer comes only from a 2xx reply whose `data` array holds a run
/// with status `"in_progress"`.
pub proof fn lemma_busy_needs_run_in_progress(reply: Reply<Result<Document, String>>)
    requires
        session_busy_outcome(reply),
    ensures
        reply matches Reply::Answered(status, Ok(doc)) && 200 <= status < 300 && (
        doc.value.field("data"@) matches Some(Json::Array(runs)) && exists|i: int|
            0 <= i < runs@.len() && match (#[trigger] runs@[i]).field("status"@) {
                Some(Json::Str(s)) => s@ == "in_progress"@,
                _ => false,
            }),
{
    if let Reply::Answered(status, Ok(doc)) = reply {
        if let Some(Json::Array(runs)) = doc.value.field("data"@) {
            let i = choose|i: int| 0 <= i < runs@.len() && crate::api::run_in_progress(#[trigger] runs@[i]);
            assert(match runs@[i].field("status"@) {
                Some(Json::Str(s)) => s@ == "in_progress"@,
                _ => false,
            });
        }
    }
}

/// A session creation answered with any 2xx status and a string at
/// `session.id` gives that id; any other status gives the error that names
/// it, whatever the body.
pub proof fn lemma_session_id_on_success(status: u16, body: Json, shown: Seq<char>, sess: Json, id: String)
    requires
        body.field("session"@) == Some(sess),
        sess.field("id"@) == Some(Json::Str(id)),
    ensures
        200 <= status < 300 ==> session_result_of(status, body, shown) == Ok::<Seq<char>, Seq<char>>(
            id@,
        ),
{
}

/// Only a non-2xx status gives the `HTTP <status>` error, and it always does.
pub proof fn lemma_session_http_error(status: u16, body: Json, shown: Seq<char>, text: String)
    ensures
        !(200 <= status < 300) ==> session_result_of(status, body, shown) == Err::<
            Seq<char>,
            Seq<char>,
        >("HTTP "@ + decimal(status as nat) + ": "@ + shown),
        200 <= status < 300 ==> (session_result_of(status, body, shown) is Ok
            || session_result_of(status, body, shown) == Err::<Seq<char>, Seq<char>>(
            "No session id in response: "@ + shown,
        )),
        create_session_outcome(Reply::Answered(status, Ok(Document { value: body, text })))
            == session_result_of(status, body, text@),
{
}

/// The sessions listed are all the elements of the body's `data` array, in
/// order, whatever the status.
pub proof fn lemma_all_sessions_listed(
    status: u16,
    doc: Document,
    items: Vec<Json>,
    r: Result<Vec<Json>, String>,
)
    requires
        doc.value.field("data"@) == Some(Json::Array(items)),
        list_sessions_outcome(Reply::Answered(status, Ok(doc)), r),
    ensures
        sessions_of(doc.value).len() == items@.len(),
        r matches Ok(v) && v@.len() == items@.len() && forall|k: int|
            0 <= k < items@.len() ==> v@[k] == items@[k],
{
}

/// Any error or timeout shows the agent as disconnected: no response, a
/// status outside 200..=299, or a body that could not be read as JSON.
pub proof fn lemma_poll_errors(status: u16, e: String, doc: Document)
    ensures
        poll_outcome(Reply::Unreachable(e)) == ConnectionStatus::Disconnected,
        poll_outcome(Reply::Answered(status, Err(e))) == ConnectionStatus::Disconnected,
        !(200 <= status < 300) ==> poll_outcome(Reply::Answered(status, Ok(doc)))
            == ConnectionStatus::Disconnected,
{
}

/// A chat message that gets no response, or whose reply cannot be read,
/// fails with the client's error text after a fixed prefix.
pub proof fn lemma_send_message_errors(status: u16, e: String)
    ensures
        send_message_outcome(Reply::Unreachable(e)) == Err::<Seq<char>, Seq<char>>(
            "Request failed: "@ + e@,
        ),
        send_message_outcome(Reply::Answered(status, Err(e))) == Err::<Seq<char>, Seq<char>>(
            "Read failed: "@ + e@,
        ),
{
}

/// A session creation that gets no response, or whose body is not JSON,
/// fails with the error text after a fixed prefix.
pub proof fn lemma_create_session_errors(status: u16, e: String)
    ensures
        create_session_outcome(Reply::Unreachable(e)) == Err::<Seq<char>, Seq<char>>(
            "Session create failed: "@ + e@,
        ),
        create_session_outcome(Reply::Answered(status, Err(e))) == Err::<Seq<char>, Seq<char>>(
            "JSON parse failed: "@ + e@,
        ),
{
}

/// A session listing fails only without a response or a JSON body, and a
/// body without a `data` array lists nothing.
pub proof fn lemma_list_sessions_edges(status: u16, e: String, doc: Document, r: Result<Vec<Json>, String>)
    ensures
        list_sessions_outcome(Reply::Unreachable(e), r) ==> (r matches Err(m) && m@
            == "List sessions failed: "@ + e@),
        list_sessions_outcome(Reply::Answered(status, Err(e)), r) ==> (r matches Err(m) && m@
            == "JSON parse failed: "@ + e@),
        list_sessions_outcome(Reply::Answered(status, Ok(doc)), r) && !(doc.value.field(
            "data"@,
        ) matches Some(Json::Array(_))) ==> (r matches Ok(v) && v@.len() == 0),
{
}

} // verus!
