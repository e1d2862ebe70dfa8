use resonate_plugins::frame::sanitize;
use resonate_plugins::gotify::{begin, step, Config, Stage};
use resonate_plugins::http::{Action, Event, Method, Param, Part, Piece, Request, Response};
use resonate_plugins::json::{Json, Number};
use resonate_plugins::promise::Promise;
use resonate_plugins::text::quote;
use resonate_plugins::verdict::{Payload, Verdict};
use serde_json::Value;

// ─── Plain values to and from JSON text ─────────────────────────────────────

fn from_value(v: &Value) -> Json {
    match v {
        Value::Null => Json::Null,
        Value::Bool(b) => Json::Bool(*b),
        Value::Number(n) => Json::Num(Number {
            text: n.to_string(),
            int: n.as_i64(),
            zero: n.as_f64() == Some(0.0),
        }),
        Value::String(s) => Json::Str(s.clone()),
        Value::Array(a) => Json::Array(a.iter().map(from_value).collect()),
        Value::Object(m) => {
            Json::Object(m.iter().map(|(k, v)| (k.clone(), from_value(v))).collect())
        }
    }
}

fn to_value(j: &Json) -> Value {
    match j {
        Json::Null => Value::Null,
        Json::Bool(b) => Value::Bool(*b),
        Json::Num(n) => serde_json::from_str(&n.text).unwrap(),
        Json::Str(s) => Value::String(s.clone()),
        Json::Array(a) => Value::Array(a.iter().map(to_value).collect()),
        Json::Object(m) => {
            let mut out = serde_json::Map::new();
            for (k, v) in m {
                out.insert(k.clone(), to_value(v));
            }
            Value::Object(out)
        }
    }
}

fn doc(text: &str) -> Json {
    from_value(&serde_json::from_str::<Value>(text).unwrap())
}

fn value(text: &str) -> Value {
    serde_json::from_str(text).unwrap()
}

fn resp(status: u16, text: &str) -> Response {
    Response {
        status,
        text: text.to_string(),
        body: serde_json::from_str::<Value>(text).ok().map(|v| from_value(&v)),
    }
}

fn param(func: &str, args: &str) -> Result<Json, String> {
    Ok(doc(&format!(r#"{{"func": "{func}", "args": {args}}}"#)))
}

fn url(r: &Request) -> String {
    let mut out = String::new();
    for p in &r.url {
        match p {
            Piece::Text(s) => out.push_str(s),
            Piece::Segment(j) => out.push_str(&quote(&to_value(j).to_string())),
        }
    }
    out
}

fn query(r: &Request) -> Vec<(String, String)> {
    r.query
        .iter()
        .map(|(k, p)| {
            let v = match p {
                Param::Text(s) => s.clone(),
                Param::Doc(j) => to_value(j).to_string(),
                Param::Joined(parts) => parts
                    .iter()
                    .map(|x| match x {
                        Part::Text(s) => s.clone(),
                        Part::Doc(j) => to_value(j).to_string(),
                    })
                    .collect::<Vec<_>>()
                    .join(","),
            };
            (k.clone(), v)
        })
        .collect()
}

fn header(r: &Request, k: &str) -> Option<String> {
    r.headers.iter().find(|(n, _)| n == k).map(|(_, v)| v.clone())
}

fn payload(p: &Payload) -> String {
    match p {
        Payload::Text(s) => s.clone(),
        Payload::Doc(j) => to_value(j).to_string(),
        Payload::Note(s, j) => format!("{s}{}", to_value(j)),
        Payload::Quoted(h, part, t) => {
            let inner = match part {
                Part::Text(s) => s.clone(),
                Part::Doc(j) => to_value(j).to_string(),
            };
            format!("{h}{inner:?}{t}")
        }
    }
}

fn sent(a: &Action) -> &Request {
    match a {
        Action::Send(r) => r,
        _ => panic!("expected a request"),
    }
}

fn slept(a: &Action) -> u64 {
    match a {
        Action::Sleep(ms) => *ms,
        _ => panic!("expected a sleep"),
    }
}

/// The verdict a finished delivery ends with: its kind and its text (a
/// rejection as its document).
fn finished(a: &Action) -> (&'static str, Value) {
    match a {
        Action::Finish(Verdict::Resolve(p)) => ("resolve", Value::String(payload(p))),
        Action::Finish(Verdict::Reject(j)) => ("reject", to_value(j)),
        Action::Finish(Verdict::Halt(p)) => ("halt", Value::String(payload(p))),
        Action::Finish(Verdict::Release(p)) => ("release", Value::String(payload(p))),
        _ => panic!("expected a verdict"),
    }
}

fn resolved_doc(a: &Action) -> Value {
    match a {
        Action::Finish(Verdict::Resolve(Payload::Doc(j))) => to_value(j),
        _ => panic!("expected a resolved document"),
    }
}

// ─── Fixtures ───────────────────────────────────────────────────────────────

fn config() -> Config {
    Config { base_url: "http://gotify".to_string(), client_token: "ct".to_string() }
}

fn promise() -> Promise {
    Promise { id: "note 1".to_string(), timeout_at: 1_000, param_data: None }
}

fn go(s: Stage, e: Event) -> (Stage, Action) {
    step(&config(), s, e)
}

#[test]
fn message_create_scans_then_creates_a_stamped_message() {
    let (s, a) = begin(
        &config(),
        &promise(),
        param("message.create", r#"{"appid": 5, "message": "hi", "extras": {"client::display": {"contentType": "text/plain"}}}"#),
    );
    let r = sent(&a);
    assert!(r.method == Method::Get);
    assert_eq!(url(r), "http://gotify/application/5/message");
    assert_eq!(query(r), vec![("limit".to_string(), "200".to_string())]);
    assert_eq!(header(r, "X-Gotify-Key").as_deref(), Some("ct"));
    let (s, a) = go(s, Event::Reply(resp(200, r#"{"messages": [{"id": 1, "extras": {"resonate::promise": "other"}}]}"#)));
    let r = sent(&a);
    assert!(r.method == Method::Post);
    assert_eq!(url(r), "http://gotify/message");
    let body = to_value(r.body.as_ref().unwrap());
    assert_eq!(body["message"], "hi");
    assert_eq!(body["extras"]["resonate::promise"], Value::String(sanitize("note 1")));
    assert_eq!(body["extras"]["client::display"]["contentType"], "text/plain");
    let (_, a) = go(s, Event::Reply(resp(200, r#"{"id": 2}"#)));
    assert_eq!(finished(&a), ("resolve", Value::String(r#"{"id": 2}"#.to_string())));
}

#[test]
fn message_create_resolves_with_the_stamped_message_on_re_entry() {
    let (s, _) = begin(&config(), &promise(), param("message.create", r#"{"appid": "5", "message": "hi"}"#));
    let stamp = sanitize("note 1");
    let text = format!(r#"{{"messages": [{{"id": 9, "extras": {{"resonate::promise": "{stamp}"}}}}]}}"#);
    let (_, a) = go(s, Event::Reply(resp(200, &text)));
    assert_eq!(
        finished(&a).1,
        Value::String(format!(r#"{{"extras":{{"resonate::promise":"{stamp}"}},"id":9}}"#))
    );
}

#[test]
fn message_create_rejects_a_missing_appid() {
    let (_, a) = begin(&config(), &promise(), param("message.create", r#"{"appid": null}"#));
    assert_eq!(
        finished(&a),
        ("reject", value(r#"{"code": "invalid_request", "detail": "args.appid is required"}"#))
    );
}

#[test]
fn message_create_rejects_an_unknown_application() {
    let (s, _) = begin(&config(), &promise(), param("message.create", r#"{"appid": 77}"#));
    let (_, a) = go(s, Event::Reply(resp(404, "{}")));
    assert_eq!(finished(&a), ("reject", value(r#"{"code": "application_not_found"}"#)));
}

#[test]
fn message_create_rejects_invalid_request_with_the_description() {
    let (s, _) = begin(&config(), &promise(), param("message.create", r#"{"appid": 1}"#));
    let (s, _) = go(s, Event::Reply(resp(200, r#"{"messages": []}"#)));
    let (_, a) = go(s, Event::Reply(resp(400, r#"{"errorDescription": "message is empty"}"#)));
    assert_eq!(
        finished(&a),
        ("reject", value(r#"{"code": "invalid_request", "detail": "message is empty"}"#))
    );
}

#[test]
fn message_create_halts_on_a_rejected_token() {
    let (s, _) = begin(&config(), &promise(), param("message.create", r#"{"appid": 1}"#));
    let (_, a) = go(s, Event::Reply(resp(401, "token")));
    assert_eq!(finished(&a), ("halt", Value::String("token".to_string())));
}

#[test]
fn message_list_forwards_its_args() {
    let (s, a) = begin(&config(), &promise(), param("message.list", r#"{"limit": 10, "since": null}"#));
    let r = sent(&a);
    assert_eq!(url(r), "http://gotify/message");
    assert_eq!(query(r), vec![("limit".to_string(), "10".to_string())]);
    let (_, a) = go(s, Event::Reply(resp(503, "down")));
    assert_eq!(finished(&a), ("release", Value::String("down".to_string())));
}

#[test]
fn application_list_resolves_with_the_body() {
    let (s, a) = begin(&config(), &promise(), param("application.list", "{}"));
    assert_eq!(url(sent(&a)), "http://gotify/application");
    let (_, a) = go(s, Event::Reply(resp(200, "[]")));
    assert_eq!(finished(&a), ("resolve", Value::String("[]".to_string())));
}
