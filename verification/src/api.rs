//! Requests to the agent's HTTP API server and what its replies mean.
//!
//! Each operation comes in two halves: a function that says which request to
//! send, and a function that turns what came back into the operation's
//! result.  Sending and receiving are left to the caller.

use vstd::prelude::*;
use crate::json::{
    Document, Json, known, known_text, member_index, parse_document, parse_json, parsed_document,
    parsed_json,
};
use crate::status::ConnectionStatus;
use crate::text::{
    join_text, decimal, decimal_string, lemma_without_trailing_push, str_eq, text_result, trim_end_char,
    without_trailing,
};

verus! {

/// The HTTP method of a request.
#[derive(Debug, Clone, Copy, PartialEq, Eq, Structural)]
pub enum Method {
    Get,
    Post,
}

/// A request to the agent: method, full URL, the value of the
/// `Authorization` header if one is sent, and the JSON body if one is sent.
#[derive(Debug)]
pub struct Request {
    pub method: Method,
    pub url: String,
    pub authorization: Option<String>,
    pub body: Option<Json>,
}

/// What came back from a request: either no response at all (with the
/// client's error text), or an HTTP status code with the body as the
/// operation reads it.
#[derive(Debug, PartialEq)]
pub enum Reply<B> {
    Unreachable(String),
    Answered(u16, B),
}

/// A 2xx status.
pub open spec fn success_code(status: u16) -> bool {
    200 <= status < 300
}

/// Whether `status` is a success (2xx) status.
pub fn is_success(status: u16) -> (r: bool)
    ensures
        r == success_code(status),
{
    200 <= status && status < 300
}

/// The URL of `path` on the server at `base_url`: the base without its
/// trailing slashes, then the path.
pub open spec fn endpoint_url(base_url: Seq<char>, path: Seq<char>) -> Seq<char> {
    without_trailing(base_url, '/') + path
}

/// The URL of `path` on the server at `base_url`.
pub fn endpoint(base_url: &str, path: &str) -> (r: String)
    ensures
        r@ == endpoint_url(base_url@, path@),
{
    join_text(trim_end_char(base_url, '/'), path)
}

/// Slashes at the end of the configured server URL make no difference to
/// any request URL: `http://host:8642/` and `http://host:8642` reach the same
/// endpoints, and a base without a trailing slash is used as it stands.
pub proof fn lemma_trailing_slash_ignored(base_url: Seq<char>, path: Seq<char>)
    ensures
        endpoint_url(base_url.push('/'), path) == endpoint_url(base_url, path),
        !(base_url.len() > 0 && base_url.last() == '/') ==> endpoint_url(base_url, path) == base_url
            + path,
{
    lemma_without_trailing_push(base_url, '/');
}

/// The `Authorization` header sent with a key: none for an empty key.
pub open spec fn bearer(api_key: Seq<char>) -> Option<Seq<char>> {
    if api_key.len() == 0 {
        None
    } else {
        Some("Bearer "@ + api_key)
    }
}

/// The `Authorization` header value for `api_key`, or `None` for an empty key.
pub fn authorization(api_key: &str) -> (r: Option<String>)
    ensures
        match r {
            Some(h) => bearer(api_key@) == Some(h@),
            None => bearer(api_key@) is None,
        },
{
    if api_key.is_empty() {
        None
    } else {
        Some(join_text("Bearer ", api_key))
    }
}

/// The request's fields, stated over plain values.
pub open spec fn request_is(
    r: Request,
    method: Method,
    url: Seq<char>,
    api_key: Seq<char>,
    body: Option<Json>,
) -> bool {
    &&& r.method == method
    &&& r.url@ == url
    &&& match r.authorization {
        Some(h) => bearer(api_key) == Some(h@),
        None => bearer(api_key) is None,
    }
    &&& r.body == body
}

fn request(method: Method, url: String, api_key: &str, body: Option<Json>) -> (r: Request)
    ensures
        request_is(r, method, url@, api_key@, body),
{
    Request { method, url, authorization: authorization(api_key), body }
}

/// `GET {base}/health/detailed`, the status poll.
pub fn poll_status_request(base_url: &str, api_key: &str) -> (r: Request)
    ensures
        request_is(r, Method::Get, endpoint_url(base_url@, "/health/detailed"@), api_key@, None),
{
    request(Method::Get, endpoint(base_url, "/health/detailed"), api_key, None)
}

/// `GET {base}/v1/runs`, the list of runs.
pub fn session_busy_request(base_url: &str, api_key: &str) -> (r: Request)
    ensures
        request_is(r, Method::Get, endpoint_url(base_url@, "/v1/runs"@), api_key@, None),
{
    request(Method::Get, endpoint(base_url, "/v1/runs"), api_key, None)
}

/// `GET {base}/api/sessions`, the list of sessions.
pub fn list_sessions_request(base_url: &str, api_key: &str) -> (r: Request)
    ensures
        request_is(r, Method::Get, endpoint_url(base_url@, "/api/sessions"@), api_key@, None),
{
    request(Method::Get, endpoint(base_url, "/api/sessions"), api_key, None)
}

/// The body of a session creation: an empty object.
pub open spec fn empty_object(j: Json) -> bool {
    j matches Json::Object(members) && members@.len() == 0
}

/// `POST {base}/api/sessions` with `{}`, which creates a session.
pub fn create_session_request(base_url: &str, api_key: &str) -> (r: Request)
    ensures
        r.method == Method::Post,
        r.url@ == endpoint_url(base_url@, "/api/sessions"@),
        request_is(r, Method::Post, r.url@, api_key@, r.body),
        r.body matches Some(b) && empty_object(b),
{
    request(Method::Post, endpoint(base_url, "/api/sessions"), api_key, Some(Json::Object(Vec::new())))
}

/// The body of a chat message: `{"message": <message>, "stream": false}`.
pub open spec fn chat_body(j: Json, message: Seq<char>) -> bool {
    &&& j matches Json::Object(members)
    &&& members@.len() == 2
    &&& members@[0].0@ == "message"@
    &&& members@[0].1 matches Json::Str(m) && m@ == message
    &&& members@[1].0@ == "stream"@
    &&& members@[1].1 == Json::Bool(false)
}

/// `POST {base}/api/sessions/{session_id}/chat` carrying the message, not
/// streamed.
pub fn send_message_request(base_url: &str, api_key: &str, session_id: &str, message: &str) -> (r: Request)
    ensures
        r.method == Method::Post,
        r.url@ == endpoint_url(base_url@, "/api/sessions/"@ + session_id@ + "/chat"@),
        request_is(r, Method::Post, r.url@, api_key@, r.body),
        r.body matches Some(b) && chat_body(b, message@),
{
    let path = join_text(join_text("/api/sessions/", session_id).as_str(), "/chat");
    let url = endpoint(base_url, path.as_str());
    let mut members: Vec<(String, Json)> = Vec::new();
    members.push(("message".to_owned(), Json::Str(message.to_owned())));
    members.push(("stream".to_owned(), Json::Bool(false)));
    assert(("/api/sessions/"@ + session_id@) + "/chat"@ =~= "/api/sessions/"@ + session_id@ + "/chat"@);
    request(Method::Post, url, api_key, Some(Json::Object(members)))
}

/// The text of the error for a reply body that is not JSON.
pub open spec fn body_decode_error() -> Seq<char> {
    "error decoding response body"@
}

/// What reading a reply body as JSON gives: the document the bytes hold, or
/// the body decode error; a body that could not be read keeps its error.
pub open spec fn decoded(body: Result<Vec<u8>, String>, r: Result<Document, String>) -> bool {
    match body {
        Err(e) => r matches Err(m) && m@ == e@,
        Ok(bytes) => match parsed_document(bytes@) {
            Some((value, text)) => r matches Ok(d) && d.value == value && d.text@ == text,
            None => r matches Err(m) && m@ == body_decode_error(),
        },
    }
}

/// Reads a reply body as JSON.
pub fn decode_body(body: Result<Vec<u8>, String>) -> (r: Result<Document, String>)
    ensures
        decoded(body, r),
{
    match body {
        Err(e) => Err(e),
        Ok(bytes) => match parse_document(bytes.as_slice()) {
            Some(d) => Ok(d),
            None => Err("error decoding response body".to_owned()),
        },
    }
}

/// Whether `r` is `reply` with its body read as JSON.
pub open spec fn decoded_reply(reply: Reply<Result<Vec<u8>, String>>, r: Reply<Result<Document, String>>) -> bool {
    match reply {
        Reply::Unreachable(e) => r matches Reply::Unreachable(m) && m@ == e@,
        Reply::Answered(status, body) => r matches Reply::Answered(s, d) && s == status && decoded(body, d),
    }
}

/// A reply with its body read as JSON.
pub fn decode_reply(reply: Reply<Result<Vec<u8>, String>>) -> (r: Reply<Result<Document, String>>)
    ensures
        decoded_reply(reply, r),
{
    match reply {
        Reply::Unreachable(e) => Reply::Unreachable(e),
        Reply::Answered(status, body) => Reply::Answered(status, decode_body(body)),
    }
}

/// The text at `key` of an optional value.
pub open spec fn text_at(v: Option<Json>, key: Seq<char>) -> Option<Seq<char>> {
    match v {
        Some(j) => match j.field(key) {
            Some(f) => f.text(),
            None => None,
        },
        None => None,
    }
}

/// The member `key` of an optional value.
pub open spec fn field_of(v: Option<Json>, key: Seq<char>) -> Option<Json> {
    match v {
        Some(j) => j.field(key),
        None => None,
    }
}

/// The status that a health report describes: busy while any agent is active
/// or the gateway says it is busy, else idle while the gateway is running,
/// else disconnected.  A missing or mistyped member counts as `""`, `0` or
/// `false`.
pub open spec fn health_status(body: Json) -> ConnectionStatus {
    let state = match text_at(Some(body), "gateway_state"@) {
        Some(s) => s,
        None => Seq::empty(),
    };
    let active: u64 = match body.field("active_agents"@) {
        Some(v) => match v.unsigned() {
            Some(n) => n,
            None => 0,
        },
        None => 0,
    };
    let busy = match body.field("gateway_busy"@) {
        Some(v) => match v.flag() {
            Some(b) => b,
            None => false,
        },
        None => false,
    };
    if active > 0 || busy {
        ConnectionStatus::Busy
    } else if state == "running"@ {
        ConnectionStatus::Idle
    } else {
        ConnectionStatus::Disconnected
    }
}

/// An agent that reports active agents, or reports itself busy, is busy
/// whatever the gateway's state; otherwise it is idle exactly when the
/// gateway reports `"running"`.
pub proof fn lemma_busy_wins(body: Json)
    ensures
        (body.field("active_agents"@) matches Some(v) && v.unsigned() matches Some(n) && n > 0)
            ==> health_status(body) == ConnectionStatus::Busy,
        body.field("gateway_busy"@) == Some(Json::Bool(true)) ==> health_status(body)
            == ConnectionStatus::Busy,
        health_status(body) == ConnectionStatus::Idle ==> text_at(Some(body), "gateway_state"@)
            == Some("running"@),
{
    lemma_running_is_not_empty();
}

/// The text `"running"` is not the empty text that stands for a missing
/// gateway state.
proof fn lemma_running_is_not_empty()
    ensures
        Seq::<char>::empty() != "running"@,
{
    reveal_strlit("running");
    assert("running"@.len() == 7);
}

/// The status that a reply to the status poll gives: the health report of a
/// 2xx reply whose body is JSON; disconnected on any error, that is no
/// response, a non-2xx status, or a body that is not JSON.
pub open spec fn poll_outcome(reply: Reply<Result<Document, String>>) -> ConnectionStatus {
    match reply {
        Reply::Answered(status, Ok(b)) => if success_code(status) {
            health_status(b.value)
        } else {
            ConnectionStatus::Disconnected
        },
        _ => ConnectionStatus::Disconnected,
    }
}

/// Any error or timeout shows the agent as disconnected: a poll that gets no
/// response, a non-2xx response, or a 2xx response whose body is not JSON;
/// only a health report can show it idle or busy.
pub proof fn lemma_poll_error_disconnected(reply: Reply<Result<Document, String>>)
    ensures
        reply is Unreachable ==> poll_outcome(reply) == ConnectionStatus::Disconnected,
        reply matches Reply::Answered(status, _) && !success_code(status) ==> poll_outcome(reply)
            == ConnectionStatus::Disconnected,
        reply matches Reply::Answered(_, Err(_)) ==> poll_outcome(reply)
            == ConnectionStatus::Disconnected,
        poll_outcome(reply) != ConnectionStatus::Disconnected ==> (reply matches Reply::Answered(
            status,
            Ok(b),
        ) && success_code(status) && poll_outcome(reply) == health_status(b.value)),
{
}

/// The status given by a health report.
pub fn health_report_status(body: &Json) -> (r: ConnectionStatus)
    ensures
        r == health_status(*body),
{
    let active: u64 = match body.get("active_agents") {
        Some(v) => match v.as_u64() {
            Some(n) => n,
            None => 0,
        },
        None => 0,
    };
    let busy = match body.get("gateway_busy") {
        Some(v) => match v.as_bool() {
            Some(b) => b,
            None => false,
        },
        None => false,
    };
    let running = match body.get("gateway_state") {
        Some(v) => match v.as_str() {
            Some(s) => str_eq(s.as_str(), "running"),
            None => false,
        },
        None => false,
    };
    proof {
        lemma_running_is_not_empty();
    }
    if active > 0 || busy {
        ConnectionStatus::Busy
    } else if running {
        ConnectionStatus::Idle
    } else {
        ConnectionStatus::Disconnected
    }
}

/// The status that the reply to [`poll_status_request`] gives.
pub fn poll_status(reply: &Reply<Result<Document, String>>) -> (r: ConnectionStatus)
    ensures
        r == poll_outcome(*reply),
{
    match reply {
        Reply::Unreachable(_) => ConnectionStatus::Disconnected,
        Reply::Answered(status, Ok(b)) => if is_success(*status) {
            health_report_status(&b.value)
        } else {
            ConnectionStatus::Disconnected
        },
        Reply::Answered(_, Err(_)) => ConnectionStatus::Disconnected,
    }
}

/// The member `key` of an optional value.
fn get_in<'a>(v: Option<&'a Json>, key: &str) -> (r: Option<&'a Json>)
    ensures
        known(r) == field_of(known(v), key@),
{
    match v {
        Some(j) => j.get(key),
        None => None,
    }
}

/// The text at `key` of an optional value.
fn text_in<'a>(v: Option<&'a Json>, key: &str) -> (r: Option<&'a String>)
    ensures
        known_text(r) == text_at(known(v), key@),
{
    match get_in(v, key) {
        Some(f) => f.as_str(),
        None => None,
    }
}

/// The first element of an optional array.
pub open spec fn first_item(v: Option<Json>) -> Option<Json> {
    match v {
        Some(j) => match j.items() {
            Some(s) => if s.len() > 0 {
                Some(s[0])
            } else {
                None
            },
            None => None,
        },
        None => None,
    }
}

fn first_in<'a>(v: Option<&'a Json>) -> (r: Option<&'a Json>)
    ensures
        known(r) == first_item(known(v)),
{
    match v {
        Some(j) => match j.as_array() {
            Some(items) => if items.len() > 0 {
                Some(&items[0])
            } else {
                None
            },
            None => None,
        },
        None => None,
    }
}

/// A run whose `status` is `"in_progress"`.
pub open spec fn run_in_progress(run: Json) -> bool {
    text_at(Some(run), "status"@) == Some("in_progress"@)
}

/// Some run among `runs` is in progress.
pub open spec fn some_run_in_progress(runs: Seq<Json>) -> bool {
    exists|i: int| 0 <= i < runs.len() && run_in_progress(#[trigger] runs[i])
}

/// A list of runs (`{"data": [...]}`) with a run in progress.
pub open spec fn any_run_in_progress(body: Json) -> bool {
    match field_of(Some(body), "data"@) {
        Some(d) => match d.items() {
            Some(runs) => some_run_in_progress(runs),
            None => false,
        },
        None => false,
    }
}

/// Busy exactly when a 2xx reply lists a run in progress.
pub open spec fn session_busy_outcome(reply: Reply<Result<Document, String>>) -> bool {
    match reply {
        Reply::Answered(status, Ok(body)) => success_code(status) && any_run_in_progress(body.value),
        _ => false,
    }
}

/// Whether the reply to [`session_busy_request`] shows a run in progress.
pub fn check_session_busy(reply: &Reply<Result<Document, String>>) -> (r: bool)
    ensures
        r == session_busy_outcome(*reply),
{
    match reply {
        Reply::Answered(status, Ok(body)) => {
            if !is_success(*status) {
                return false;
            }
            match get_in(Some(&body.value), "data") {
                Some(d) => match d.as_array() {
                    Some(runs) => {
                        let mut i: usize = 0;
                        while i < runs.len()
                            invariant
                                0 <= i <= runs.len(),
                                session_busy_outcome(*reply) == some_run_in_progress(runs@),
                                forall|j: int| 0 <= j < i ==> !run_in_progress(#[trigger] runs@[j]),
                            decreases runs.len() - i,
                        {
                            let busy = match text_in(Some(&runs[i]), "status") {
                                Some(s) => str_eq(s.as_str(), "in_progress"),
                                None => false,
                            };
                            if busy {
                                assert(run_in_progress(runs@[i as int]));
                                return true;
                            }
                            i = i + 1;
                        }
                        false
                    },
                    None => false,
                },
                None => false,
            }
        },
        _ => false,
    }
}

/// The reply text of a chat answer: `message.content`, else
/// `choices[0].message.content`, else `choices[0].delta.content`, taking the
/// first of them that is a string.
pub open spec fn chat_content(j: Json) -> Option<Seq<char>> {
    let direct = text_at(j.field("message"@), "content"@);
    let choice = first_item(j.field("choices"@));
    let full = text_at(field_of(choice, "message"@), "content"@);
    let delta = text_at(field_of(choice, "delta"@), "content"@);
    if direct is Some {
        direct
    } else if full is Some {
        full
    } else {
        delta
    }
}

/// The reply text of a chat answer, if it has one.
pub fn chat_content_of(j: &Json) -> (r: Option<&String>)
    ensures
        known_text(r) == chat_content(*j),
{
    let direct = text_in(j.get("message"), "content");
    if direct.is_some() {
        return direct;
    }
    let choice = first_in(j.get("choices"));
    let full = text_in(get_in(choice, "message"), "content");
    if full.is_some() {
        return full;
    }
    text_in(get_in(choice, "delta"), "content")
}

/// What a chat answer's body says: the reply text of the parsed answer where
/// it has one, else the body as it came.
pub open spec fn reply_text(text: Seq<char>, parsed: Option<Json>) -> Seq<char> {
    match parsed {
        Some(j) => match chat_content(j) {
            Some(c) => c,
            None => text,
        },
        None => text,
    }
}

/// What a chat answer's body says, given the body and what the JSON parser
/// made of it.
pub fn chat_reply_text(text: String, parsed: &Option<Json>) -> (r: String)
    ensures
        r@ == reply_text(text@, *parsed),
{
    match parsed {
        Some(j) => match chat_content_of(j) {
            Some(c) => c.clone(),
            None => text,
        },
        None => text,
    }
}

/// `"HTTP <status>: <detail>"`, the error for a non-2xx reply.
pub open spec fn http_error(status: u16, detail: Seq<char>) -> Seq<char> {
    "HTTP "@ + decimal(status as nat) + ": "@ + detail
}

fn http_error_text(status: u16, detail: &str) -> (r: String)
    ensures
        r@ == http_error(status, detail@),
{
    let code = decimal_string(status as u64);
    let head = join_text(join_text("HTTP ", code.as_str()).as_str(), ": ");
    join_text(head.as_str(), detail)
}

/// The result of a chat message: the client's error, the read error, or the
/// status and body of a non-2xx reply as errors; else the reply text.
pub open spec fn send_message_outcome(reply: Reply<Result<String, String>>) -> Result<Seq<char>, Seq<char>> {
    match reply {
        Reply::Unreachable(e) => Err("Request failed: "@ + e@),
        Reply::Answered(_, Err(e)) => Err("Read failed: "@ + e@),
        Reply::Answered(status, Ok(text)) => if !success_code(status) {
            Err(http_error(status, text@))
        } else {
            Ok(reply_text(text@, parsed_json(text@)))
        },
    }
}

/// The result of [`send_message_request`], given its reply with the body as
/// text.
pub fn send_message(reply: Reply<Result<String, String>>) -> (r: Result<String, String>)
    ensures
        text_result(r) == send_message_outcome(reply),
{
    match reply {
        Reply::Unreachable(e) => Err(join_text("Request failed: ", e.as_str())),
        Reply::Answered(_, Err(e)) => Err(join_text("Read failed: ", e.as_str())),
        Reply::Answered(status, Ok(text)) => {
            if !is_success(status) {
                return Err(http_error_text(status, text.as_str()));
            }
            let parsed = parse_json(text.as_str());
            Ok(chat_reply_text(text, &parsed))
        },
    }
}

/// The id of a created session: `session.id`.
pub open spec fn session_id(body: Json) -> Option<Seq<char>> {
    text_at(field_of(Some(body), "session"@), "id"@)
}

/// The result of a 2xx-or-not reply to a session creation, given the body
/// and the text that shows it: the status and body of a non-2xx reply, or a
/// body without an id, as errors; else the id.
pub open spec fn session_result_of(status: u16, body: Json, shown: Seq<char>) -> Result<Seq<char>, Seq<char>> {
    if !success_code(status) {
        Err(http_error(status, shown))
    } else {
        match session_id(body) {
            Some(id) => Ok(id),
            None => Err("No session id in response: "@ + shown),
        }
    }
}

/// The result of a session creation: the client's error or the body error,
/// else the session result for the document, shown by its compact JSON text.
pub open spec fn create_session_outcome(reply: Reply<Result<Document, String>>) -> Result<Seq<char>, Seq<char>> {
    match reply {
        Reply::Unreachable(e) => Err("Session create failed: "@ + e@),
        Reply::Answered(_, Err(e)) => Err("JSON parse failed: "@ + e@),
        Reply::Answered(status, Ok(body)) => session_result_of(status, body.value, body.text@),
    }
}

/// The session result of a reply with status `status` and body `body`, with
/// `shown` as the text that shows the body in errors.
pub fn session_result(status: u16, body: &Json, shown: String) -> (r: Result<String, String>)
    ensures
        text_result(r) == session_result_of(status, *body, shown@),
{
    if !is_success(status) {
        return Err(http_error_text(status, shown.as_str()));
    }
    match text_in(get_in(Some(body), "session"), "id") {
        Some(id) => Ok(id.clone()),
        None => Err(join_text("No session id in response: ", shown.as_str())),
    }
}

/// The result of [`create_session_request`], given its reply with the body
/// parsed.
pub fn create_session(reply: Reply<Result<Document, String>>) -> (r: Result<String, String>)
    ensures
        text_result(r) == create_session_outcome(reply),
{
    match reply {
        Reply::Unreachable(e) => Err(join_text("Session create failed: ", e.as_str())),
        Reply::Answered(_, Err(e)) => Err(join_text("JSON parse failed: ", e.as_str())),
        Reply::Answered(status, Ok(body)) => session_result(status, &body.value, body.text),
    }
}

/// The sessions that a list holds: the elements of its `data` array, or none.
pub open spec fn sessions_of(body: Json) -> Seq<Json> {
    match body.field("data"@) {
        Some(d) => match d.items() {
            Some(s) => s,
            None => Seq::empty(),
        },
        None => Seq::empty(),
    }
}

/// The elements of the `data` array of `body`, moved out of it.
fn take_sessions(body: Json) -> (r: Vec<Json>)
    ensures
        r@ == sessions_of(body),
{
    match body {
        Json::Object(mut members) => match member_index(&members, "data") {
            Some(i) => {
                let (_, data) = members.remove(i);
                match data {
                    Json::Array(items) => items,
                    _ => Vec::new(),
                }
            },
            None => Vec::new(),
        },
        _ => Vec::new(),
    }
}

/// Whether the result of a session listing is `r`: the client's error or the
/// body error as errors, else the sessions the body holds, whatever the
/// status.
pub open spec fn list_sessions_outcome(reply: Reply<Result<Document, String>>, r: Result<Vec<Json>, String>) -> bool {
    match reply {
        Reply::Unreachable(e) => r matches Err(m) && m@ == "List sessions failed: "@ + e@,
        Reply::Answered(_, Err(e)) => r matches Err(m) && m@ == "JSON parse failed: "@ + e@,
        Reply::Answered(_, Ok(body)) => r matches Ok(v) && v@ == sessions_of(body.value),
    }
}

/// The result of [`list_sessions_request`], given its reply with the body
/// parsed.
pub fn list_sessions(reply: Reply<Result<Document, String>>) -> (r: Result<Vec<Json>, String>)
    ensures
        list_sessions_outcome(reply, r),
{
    match reply {
        Reply::Unreachable(e) => Err(join_text("List sessions failed: ", e.as_str())),
        Reply::Answered(_, Err(e)) => Err(join_text("JSON parse failed: ", e.as_str())),
        Reply::Answered(_, Ok(body)) => Ok(take_sessions(body.value)),
    }
}

} // verus!
