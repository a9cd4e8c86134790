use hermes_tray::api::{
    chat_content_of, chat_reply_text, check_session_busy, create_session, health_report_status,
    list_sessions, poll_status, send_message, session_result, Reply,
};
use hermes_tray::api::{decode_body, decode_reply};
use hermes_tray::json::{Document, Json, JsonNumber};
use hermes_tray::status::ConnectionStatus;

fn s(t: &str) -> Json {
    Json::Str(t.to_string())
}

fn obj(members: Vec<(&str, Json)>) -> Json {
    Json::Object(members.into_iter().map(|(k, v)| (k.to_string(), v)).collect())
}

fn doc(value: Json) -> Document {
    Document { value, text: "{}".to_string() }
}

fn bytes(text: &str) -> Vec<u8> {
    text.as_bytes().to_vec()
}

fn n(v: u64) -> Json {
    Json::Number(JsonNumber::PosInt(v))
}

#[test]
fn poll_unreachable_is_disconnected() {
    assert_eq!(poll_status(&Reply::Unreachable("timeout".to_string())), ConnectionStatus::Disconnected);
}

#[test]
fn poll_running_idle() {
    let body = obj(vec![("active_agents", n(0)), ("gateway_busy", Json::Bool(false)), ("gateway_state", s("running")), ("status", s("ok"))]);
    assert_eq!(poll_status(&Reply::Answered(200, Ok(doc(body)))), ConnectionStatus::Idle);
}

#[test]
fn poll_active_agents_busy() {
    let body = obj(vec![("active_agents", n(2)), ("gateway_state", s("stopped"))]);
    assert_eq!(poll_status(&Reply::Answered(200, Ok(doc(body)))), ConnectionStatus::Busy);
}

#[test]
fn poll_gateway_busy_wins() {
    let body = obj(vec![("gateway_busy", Json::Bool(true)), ("gateway_state", s("running"))]);
    assert_eq!(poll_status(&Reply::Answered(204, Ok(doc(body)))), ConnectionStatus::Busy);
}

#[test]
fn poll_not_running_disconnected() {
    let body = obj(vec![("gateway_state", s("starting"))]);
    assert_eq!(poll_status(&Reply::Answered(200, Ok(doc(body)))), ConnectionStatus::Disconnected);
    assert_eq!(poll_status(&Reply::Answered(200, Ok(doc(obj(vec![]))))), ConnectionStatus::Disconnected);
    assert_eq!(poll_status(&Reply::Answered(200, Ok(doc(Json::Null)))), ConnectionStatus::Disconnected);
}

#[test]
fn poll_mistyped_members_count_as_absent() {
    let body = obj(vec![
        ("active_agents", Json::Number(JsonNumber::NegInt(-3))),
        ("gateway_busy", s("true")),
        ("gateway_state", s("running")),
    ]);
    assert_eq!(poll_status(&Reply::Answered(200, Ok(doc(body)))), ConnectionStatus::Idle);
    let body = obj(vec![("active_agents", Json::Number(JsonNumber::Float("1.5".to_string()))), ("gateway_state", s("running"))]);
    assert_eq!(health_report_status(&body), ConnectionStatus::Idle);
    let body = obj(vec![("gateway_state", Json::Bool(true))]);
    assert_eq!(health_report_status(&body), ConnectionStatus::Disconnected);
}

#[test]
fn poll_unparsable_body_disconnected() {
    assert_eq!(poll_status(&Reply::Answered(200, Err("error decoding response body".to_string()))), ConnectionStatus::Disconnected);
}

#[test]
fn poll_error_status_disconnected() {
    assert_eq!(poll_status(&Reply::Answered(401, Err(String::new()))), ConnectionStatus::Disconnected);
    let running = obj(vec![("gateway_state", s("running"))]);
    assert_eq!(poll_status(&Reply::Answered(404, Ok(doc(running)))), ConnectionStatus::Disconnected);
    assert_eq!(poll_status(&Reply::Answered(500, Ok(doc(Json::Null)))), ConnectionStatus::Disconnected);
    assert_eq!(poll_status(&Reply::Answered(302, Err(String::new()))), ConnectionStatus::Disconnected);
    assert_eq!(poll_status(&Reply::Answered(100, Err(String::new()))), ConnectionStatus::Disconnected);
}

fn runs(statuses: Vec<&str>) -> Json {
    obj(vec![("data", Json::Array(statuses.into_iter().map(|st| obj(vec![("id", s("r")), ("status", s(st))])).collect()))])
}

#[test]
fn busy_when_a_run_is_in_progress() {
    assert!(check_session_busy(&Reply::Answered(200, Ok(doc(runs(vec!["completed", "in_progress"]))))));
    assert!(!check_session_busy(&Reply::Answered(200, Ok(doc(runs(vec!["completed", "failed"]))))));
    assert!(!check_session_busy(&Reply::Answered(200, Ok(doc(runs(vec![]))))));
}

#[test]
fn not_busy_without_a_list() {
    assert!(!check_session_busy(&Reply::Answered(500, Ok(doc(runs(vec!["in_progress"]))))));
    assert!(!check_session_busy(&Reply::Unreachable("refused".to_string())));
    assert!(!check_session_busy(&Reply::Answered(200, Err("bad".to_string()))));
    assert!(!check_session_busy(&Reply::Answered(200, Ok(doc(obj(vec![("data", s("in_progress"))]))))));
    assert!(!check_session_busy(&Reply::Answered(200, Ok(doc(obj(vec![("data", Json::Array(vec![s("in_progress")]))]))))));
}

#[test]
fn chat_errors() {
    assert_eq!(send_message(Reply::Unreachable("connection refused".to_string())), Err("Request failed: connection refused".to_string()));
    assert_eq!(send_message(Reply::Answered(200, Err("body closed".to_string()))), Err("Read failed: body closed".to_string()));
    assert_eq!(send_message(Reply::Answered(404, Ok("not found".to_string()))), Err("HTTP 404: not found".to_string()));
    assert_eq!(send_message(Reply::Answered(500, Ok(String::new()))), Err("HTTP 500: ".to_string()));
}

#[test]
fn chat_reply_from_hermes_shape() {
    let text = r#"{"message": {"role": "assistant", "content": "Hello!"}}"#.to_string();
    assert_eq!(send_message(Reply::Answered(200, Ok(text))), Ok("Hello!".to_string()));
}

#[test]
fn chat_reply_from_openai_shapes() {
    let text = r#"{"choices": [{"message": {"content": "from choices"}}, {"message": {"content": "second"}}]}"#.to_string();
    assert_eq!(send_message(Reply::Answered(200, Ok(text))), Ok("from choices".to_string()));
    let text = r#"{"choices": [{"delta": {"content": "partial"}}]}"#.to_string();
    assert_eq!(send_message(Reply::Answered(201, Ok(text))), Ok("partial".to_string()));
}

#[test]
fn chat_reply_precedence() {
    let text = r#"{"message": {"content": "direct"}, "choices": [{"message": {"content": "choice"}}]}"#.to_string();
    assert_eq!(send_message(Reply::Answered(200, Ok(text))), Ok("direct".to_string()));
    let text = r#"{"message": {"content": 5}, "choices": [{"message": {"content": 7}, "delta": {"content": "d"}}]}"#.to_string();
    assert_eq!(send_message(Reply::Answered(200, Ok(text))), Ok("d".to_string()));
}

#[test]
fn chat_reply_falls_back_to_body() {
    assert_eq!(send_message(Reply::Answered(200, Ok("plain answer".to_string()))), Ok("plain answer".to_string()));
    let text = r#"{"choices": []}"#.to_string();
    assert_eq!(send_message(Reply::Answered(200, Ok(text.clone()))), Ok(text));
    let text = r#"[1, 2]"#.to_string();
    assert_eq!(send_message(Reply::Answered(200, Ok(text.clone()))), Ok(text));
    assert_eq!(send_message(Reply::Answered(200, Ok(String::new()))), Ok(String::new()));
}

#[test]
fn chat_content_of_parsed_values() {
    let j = obj(vec![("message", obj(vec![("content", s("x"))]))]);
    assert_eq!(chat_content_of(&j), Some(&"x".to_string()));
    assert_eq!(chat_content_of(&Json::Null), None);
    assert_eq!(chat_reply_text("raw".to_string(), &None), "raw".to_string());
    assert_eq!(chat_reply_text("raw".to_string(), &Some(j)), "x".to_string());
}

#[test]
fn create_session_outcomes() {
    assert_eq!(create_session(Reply::Unreachable("dns error".to_string())), Err("Session create failed: dns error".to_string()));
    assert_eq!(
        create_session(decode_reply(Reply::Answered(200, Err("request or response body error".to_string())))),
        Err("JSON parse failed: request or response body error".to_string())
    );
    assert_eq!(
        create_session(decode_reply(Reply::Answered(200, Ok(bytes("<html>proxy</html>"))))),
        Err("JSON parse failed: error decoding response body".to_string())
    );
    assert_eq!(create_session(decode_reply(Reply::Answered(200, Ok(bytes(r#"{"session": {"id": "api_abc"}}"#))))), Ok("api_abc".to_string()));
    assert_eq!(
        create_session(decode_reply(Reply::Answered(401, Ok(bytes(r#"{ "error": "unauthorized", "code": 401 }"#))))),
        Err(r#"HTTP 401: {"code":401,"error":"unauthorized"}"#.to_string())
    );
    assert_eq!(
        create_session(decode_reply(Reply::Answered(200, Ok(bytes(r#"{"session": {"x": 1.50, "id": 3}}"#))))),
        Err(r#"No session id in response: {"session":{"id":3,"x":1.5}}"#.to_string())
    );
    assert_eq!(
        create_session(decode_reply(Reply::Answered(500, Ok(bytes("{\"message\": \"a \\\"quoted\\\" line\\n\"}"))))),
        Err("HTTP 500: {\"message\":\"a \\\"quoted\\\" line\\n\"}".to_string())
    );
}

#[test]
fn bodies_read_as_json() {
    let d = decode_body(Ok(bytes(r#"{"b": 1, "a": [true, null, "x", -5, 1.5, 18446744073709551615, 1e3]}"#))).unwrap();
    assert_eq!(
        d.value,
        Json::Object(vec![
            (
                "a".to_string(),
                Json::Array(vec![
                    Json::Bool(true),
                    Json::Null,
                    s("x"),
                    Json::Number(JsonNumber::NegInt(-5)),
                    Json::Number(JsonNumber::Float("1.5".to_string())),
                    Json::Number(JsonNumber::PosInt(u64::MAX)),
                    Json::Number(JsonNumber::Float("1000.0".to_string())),
                ])
            ),
            ("b".to_string(), n(1)),
        ])
    );
    assert_eq!(d.text, r#"{"a":[true,null,"x",-5,1.5,18446744073709551615,1000.0],"b":1}"#);
    assert_eq!(decode_body(Ok(bytes("not json"))), Err("error decoding response body".to_string()));
    assert_eq!(decode_body(Ok(bytes(""))), Err("error decoding response body".to_string()));
    assert_eq!(decode_body(Err("closed".to_string())), Err("closed".to_string()));
    assert_eq!(decode_reply(Reply::Unreachable("x".to_string())), Reply::Unreachable("x".to_string()));
}

#[test]
fn poll_non_json_body_disconnected() {
    let reply = decode_reply(Reply::Answered(200, Ok(bytes("<html>proxy page</html>"))));
    assert_eq!(poll_status(&reply), ConnectionStatus::Disconnected);
    let reply = decode_reply(Reply::Answered(200, Ok(bytes(r#"{"gateway_state": "running"}"#))));
    assert_eq!(poll_status(&reply), ConnectionStatus::Idle);
}

#[test]
fn session_result_with_given_text() {
    let ok = obj(vec![("session", obj(vec![("id", s("x"))]))]);
    assert_eq!(session_result(200, &ok, "shown".to_string()), Ok("x".to_string()));
    assert_eq!(session_result(403, &ok, "shown".to_string()), Err("HTTP 403: shown".to_string()));
    assert_eq!(session_result(200, &Json::Null, "null".to_string()), Err("No session id in response: null".to_string()));
}

#[test]
fn list_sessions_outcomes() {
    assert_eq!(list_sessions(Reply::Unreachable("x".to_string())), Err("List sessions failed: x".to_string()));
    assert_eq!(list_sessions(Reply::Answered(200, Err("y".to_string()))), Err("JSON parse failed: y".to_string()));
    let b = obj(vec![("data", Json::Array(vec![obj(vec![("id", s("a"))]), obj(vec![("id", s("b"))])])), ("object", s("list"))]);
    assert_eq!(list_sessions(Reply::Answered(200, Ok(doc(b)))), Ok(vec![obj(vec![("id", s("a"))]), obj(vec![("id", s("b"))])]));
    assert_eq!(list_sessions(Reply::Answered(500, Ok(doc(obj(vec![("data", Json::Array(vec![n(1)]))]))))), Ok(vec![n(1)]));
    assert_eq!(list_sessions(Reply::Answered(200, Ok(doc(obj(vec![("data", s("none"))]))))), Ok(vec![]));
    assert_eq!(list_sessions(Reply::Answered(200, Ok(doc(Json::Null)))), Ok(vec![]));
}
