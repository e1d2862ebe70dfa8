use resonate_plugins::elasticsearch::{begin, poll_default, step, Config, Stage};
use resonate_plugins::frame::sanitize;
use resonate_plugins::http::{Action, Event, Method, Param, Part, Piece, Request, Response};
use resonate_plugins::json::{Json, Number};
use resonate_plugins::promise::Promise;
use resonate_plugins::text::quote;
use resonate_plugins::verdict::{Payload, Verdict};
use serde_json::Value;

// ─── Plain values to and from JSON text ─────────────────────────────────────

fn from_value(v: &Value) -> Json {
    match v {
        Value::Null => Json::Null,
        Value::Bool(b) => Json::Bool(*b),
        Value::Number(n) => Json::Num(Number {
            text: n.to_string(),
            int: n.as_i64(),
            zero: n.as_f64() == Some(0.0),
        }),
        Value::String(s) => Json::Str(s.clone()),
        Value::Array(a) => Json::Array(a.iter().map(from_value).collect()),
        Value::Object(m) => {
            Json::Object(m.iter().map(|(k, v)| (k.clone(), from_value(v))).collect())
        }
    }
}

fn to_value(j: &Json) -> Value {
    match j {
        Json::Null => Value::Null,
        Json::Bool(b) => Value::Bool(*b),
        Json::Num(n) => serde_json::from_str(&n.text).unwrap(),
        Json::Str(s) => Value::String(s.clone()),
        Json::Array(a) => Value::Array(a.iter().map(to_value).collect()),
        Json::Object(m) => {
            let mut out = serde_json::Map::new();
            for (k, v) in m {
                out.insert(k.clone(), to_value(v));
            }
            Value::Object(out)
        }
    }
}

fn doc(text: &str) -> Json {
    from_value(&serde_json::from_str::<Value>(text).unwrap())
}

fn value(text: &str) -> Value {
    serde_json::from_str(text).unwrap()
}

fn resp(status: u16, text: &str) -> Response {
    Response {
        status,
        text: text.to_string(),
        body: serde_json::from_str::<Value>(text).ok().map(|v| from_value(&v)),
    }
}

fn param(func: &str, args: &str) -> Result<Json, String> {
    Ok(doc(&format!(r#"{{"func": "{func}", "args": {args}}}"#)))
}

fn url(r: &Request) -> String {
    let mut out = String::new();
    for p in &r.url {
        match p {
            Piece::Text(s) => out.push_str(s),
            Piece::Segment(j) => out.push_str(&quote(&to_value(j).to_string())),
        }
    }
    out
}

fn query(r: &Request) -> Vec<(String, String)> {
    r.query
        .iter()
        .map(|(k, p)| {
            let v = match p {
                Param::Text(s) => s.clone(),
                Param::Doc(j) => to_value(j).to_string(),
                Param::Joined(parts) => parts
                    .iter()
                    .map(|x| match x {
                        Part::Text(s) => s.clone(),
                        Part::Doc(j) => to_value(j).to_string(),
                    })
                    .collect::<Vec<_>>()
                    .join(","),
            };
            (k.clone(), v)
        })
        .collect()
}

fn header(r: &Request, k: &str) -> Option<String> {
    r.headers.iter().find(|(n, _)| n == k).map(|(_, v)| v.clone())
}

fn payload(p: &Payload) -> String {
    match p {
        Payload::Text(s) => s.clone(),
        Payload::Doc(j) => to_value(j).to_string(),
        Payload::Note(s, j) => format!("{s}{}", to_value(j)),
        Payload::Quoted(h, part, t) => {
            let inner = match part {
                Part::Text(s) => s.clone(),
                Part::Doc(j) => to_value(j).to_string(),
            };
            format!("{h}{inner:?}{t}")
        }
    }
}

fn sent(a: &Action) -> &Request {
    match a {
        Action::Send(r) => r,
        _ => panic!("expected a request"),
    }
}

fn slept(a: &Action) -> u64 {
    match a {
        Action::Sleep(ms) => *ms,
        _ => panic!("expected a sleep"),
    }
}

/// The verdict a finished delivery ends with: its kind and its text (a
/// rejection as its document).
fn finished(a: &Action) -> (&'static str, Value) {
    match a {
        Action::Finish(Verdict::Resolve(p)) => ("resolve", Value::String(payload(p))),
        Action::Finish(Verdict::Reject(j)) => ("reject", to_value(j)),
        Action::Finish(Verdict::Halt(p)) => ("halt", Value::String(payload(p))),
        Action::Finish(Verdict::Release(p)) => ("release", Value::String(payload(p))),
        _ => panic!("expected a verdict"),
    }
}

fn resolved_doc(a: &Action) -> Value {
    match a {
        Action::Finish(Verdict::Resolve(Payload::Doc(j))) => to_value(j),
        _ => panic!("expected a resolved document"),
    }
}

// ─── Fixtures ───────────────────────────────────────────────────────────────

const DEADLINE: i64 = 1_000_000;

fn config() -> Config {
    Config { base_url: "http://es".to_string(), api_key: "k".to_string(), poll: 2_000 }
}

fn promise() -> Promise {
    Promise { id: "copy 1".to_string(), timeout_at: DEADLINE, param_data: None }
}

fn go(s: Stage, e: Event, now: i64) -> (Stage, Action) {
    step(&config(), &promise(), s, e, now)
}

const ARGS: &str = r#"{"source": {"index": "a"}, "dest": {"index": "b"}, "slices": 2, "refresh": true}"#;

#[test]
fn poll_defaults_to_two_seconds() {
    assert_eq!(poll_default(), 2_000);
}

#[test]
fn reindex_create_resolves_when_the_task_completes() {
    let token = sanitize("copy 1");
    let (s, a) = begin(&config(), &promise(), param("reindex.create", ARGS));
    let r = sent(&a);
    assert_eq!(url(r), "http://es/_tasks");
    assert_eq!(query(r), vec![("actions".to_string(), "indices:data/write/reindex".to_string())]);
    assert_eq!(header(r, "Authorization").as_deref(), Some("ApiKey k"));
    let (s, a) = go(s, Event::Reply(resp(200, r#"{"nodes": {}}"#)), 0);
    let r = sent(&a);
    assert!(r.method == Method::Post);
    assert_eq!(url(r), "http://es/_reindex");
    assert_eq!(header(r, "X-Opaque-Id"), Some(token));
    assert_eq!(
        query(r),
        vec![
            ("refresh".to_string(), "true".to_string()),
            ("slices".to_string(), "2".to_string()),
            ("wait_for_completion".to_string(), "false".to_string()),
        ]
    );
    assert_eq!(
        to_value(r.body.as_ref().unwrap()),
        value(r#"{"source": {"index": "a"}, "dest": {"index": "b"}}"#)
    );
    let (s, a) = go(s, Event::Reply(resp(200, r#"{"task": "node:7"}"#)), 0);
    assert_eq!(url(sent(&a)), "http://es/_reindex/node%3A7");
    let (s, a) = go(s, Event::Reply(resp(200, r#"{"completed": false}"#)), 10);
    assert_eq!(slept(&a), 2_000);
    let (s, _) = go(s, Event::Woke, 2_010);
    let (_, a) = go(
        s,
        Event::Reply(resp(200, r#"{"completed": true, "id": 7, "response": {"failures": [], "total": 3}}"#)),
        2_020,
    );
    assert_eq!(
        resolved_doc(&a),
        value(r#"{"id": 7, "response": {"failures": [], "total": 3}}"#)
    );
}

#[test]
fn reindex_create_reattaches_to_the_running_task() {
    let token = sanitize("copy 1");
    let (s, _) = begin(&config(), &promise(), param("reindex.create", ARGS));
    let text = format!(
        r#"{{"nodes": {{"n1": {{"tasks": {{"n1:5": {{"headers": {{"X-Opaque-Id": "{token}"}}, "parent_task_id": "n1:4"}}, "n1:4": {{"headers": {{"X-Opaque-Id": "{token}"}}}}}}}}}}}}"#
    );
    let (_, a) = go(s, Event::Reply(resp(200, &text)), 0);
    assert_eq!(url(sent(&a)), "http://es/_reindex/n1%3A4");
}

#[test]
fn reindex_create_rejects_reindex_failed() {
    let (s, _) = begin(&config(), &promise(), param("reindex.create", ARGS));
    let (s, _) = go(s, Event::Reply(resp(200, r#"{"nodes": {}}"#)), 0);
    let (s, _) = go(s, Event::Reply(resp(200, r#"{"task": "n:1"}"#)), 0);
    let (_, a) = go(
        s,
        Event::Reply(resp(200, r#"{"completed": true, "response": {"failures": [{"cause": "x"}]}}"#)),
        0,
    );
    assert_eq!(
        finished(&a),
        ("reject", value(r#"{"code": "reindex_failed", "detail": [{"cause": "x"}]}"#))
    );
}

#[test]
fn reindex_create_rejects_cancelled() {
    let (s, _) = begin(&config(), &promise(), param("reindex.create", ARGS));
    let (s, _) = go(s, Event::Reply(resp(200, r#"{"nodes": {}}"#)), 0);
    let (s, _) = go(s, Event::Reply(resp(200, r#"{"task": "n:1"}"#)), 0);
    let (_, a) = go(s, Event::Reply(resp(200, r#"{"completed": true, "cancelled": true}"#)), 0);
    assert_eq!(finished(&a), ("reject", value(r#"{"code": "cancelled", "detail": null}"#)));
}

#[test]
fn reindex_create_rejects_invalid_request() {
    let (s, _) = begin(&config(), &promise(), param("reindex.create", ARGS));
    let (s, _) = go(s, Event::Reply(resp(200, r#"{"nodes": {}}"#)), 0);
    let (_, a) = go(s, Event::Reply(resp(400, r#"{"error": {"type": "x"}}"#)), 0);
    assert_eq!(
        finished(&a),
        ("reject", value(r#"{"code": "invalid_request", "detail": {"type": "x"}}"#))
    );
}

#[test]
fn a_lost_task_read_is_counted_and_the_fifth_releases() {
    let (s, _) = begin(&config(), &promise(), param("reindex.create", ARGS));
    let (s, _) = go(s, Event::Reply(resp(200, r#"{"nodes": {}}"#)), 0);
    let (mut s, _) = go(s, Event::Reply(resp(200, r#"{"task": "n:1"}"#)), 0);
    for i in 0..4 {
        let (s1, a) = go(s, Event::Lost("reset".to_string(), false), i);
        slept(&a);
        let (s2, _) = go(s1, Event::Woke, i);
        s = s2;
    }
    let (_, a) = go(s, Event::Lost("reset".to_string(), false), 10);
    assert_eq!(finished(&a), ("release", Value::String("reset".to_string())));
}

#[test]
fn a_vanished_task_is_counted_as_a_failure() {
    let (s, _) = begin(&config(), &promise(), param("reindex.create", ARGS));
    let (s, _) = go(s, Event::Reply(resp(200, r#"{"nodes": {}}"#)), 0);
    let (s, _) = go(s, Event::Reply(resp(200, r#"{"task": "n:1"}"#)), 0);
    let (_, a) = go(s, Event::Reply(resp(404, "gone")), 0);
    slept(&a);
}

#[test]
fn reindex_get_rejects_not_found_without_detail() {
    let (s, a) = begin(&config(), &promise(), param("reindex.get", r#"{"task_id": "n:1"}"#));
    assert_eq!(url(sent(&a)), "http://es/_reindex/n%3A1");
    let (_, a) = go(s, Event::Reply(resp(404, r#"{"error": "x"}"#)), 0);
    assert_eq!(finished(&a), ("reject", value(r#"{"code": "not_found"}"#)));
}

#[test]
fn index_get_rejects_not_found_with_the_error() {
    let (s, _) = begin(&config(), &promise(), param("index.get", r#"{"index": "logs"}"#));
    let (_, a) = go(s, Event::Reply(resp(404, r#"{"error": {"type": "index_not_found_exception"}}"#)), 0);
    assert_eq!(
        finished(&a),
        ("reject", value(r#"{"code": "not_found", "detail": {"type": "index_not_found_exception"}}"#))
    );
}

#[test]
fn a_rejected_key_halts() {
    let (s, _) = begin(&config(), &promise(), param("index.get", r#"{"index": "logs"}"#));
    let (_, a) = go(s, Event::Reply(resp(401, "key")), 0);
    assert_eq!(finished(&a), ("halt", Value::String("key".to_string())));
}
