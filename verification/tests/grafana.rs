use resonate_plugins::grafana::{begin, step, Config, Stage};
use resonate_plugins::http::{Action, Event, Method, Param, Part, Piece, Request, Response};
use resonate_plugins::json::{Json, Number};
use resonate_plugins::promise::Promise;
use resonate_plugins::text::quote;
use resonate_plugins::verdict::{Payload, Verdict};
use serde_json::Value;

// ─── Plain values to and from JSON text ─────────────────────────────────────

fn from_value(v: &Value) -> Json {
    match v {
        Value::Null => Json::Null,
        Value::Bool(b) => Json::Bool(*b),
        Value::Number(n) => Json::Num(Number {
            text: n.to_string(),
            int: n.as_i64(),
            zero: n.as_f64() == Some(0.0),
        }),
        Value::String(s) => Json::Str(s.clone()),
        Value::Array(a) => Json::Array(a.iter().map(from_value).collect()),
        Value::Object(m) => {
            Json::Object(m.iter().map(|(k, v)| (k.clone(), from_value(v))).collect())
        }
    }
}

fn to_value(j: &Json) -> Value {
    match j {
        Json::Null => Value::Null,
        Json::Bool(b) => Value::Bool(*b),
        Json::Num(n) => serde_json::from_str(&n.text).unwrap(),
        Json::Str(s) => Value::String(s.clone()),
        Json::Array(a) => Value::Array(a.iter().map(to_value).collect()),
        Json::Object(m) => {
            let mut out = serde_json::Map::new();
            for (k, v) in m {
                out.insert(k.clone(), to_value(v));
            }
            Value::Object(out)
        }
    }
}

fn doc(text: &str) -> Json {
    from_value(&serde_json::from_str::<Value>(text).unwrap())
}

fn value(text: &str) -> Value {
    serde_json::from_str(text).unwrap()
}

fn resp(status: u16, text: &str) -> Response {
    Response {
        status,
        text: text.to_string(),
        body: serde_json::from_str::<Value>(text).ok().map(|v| from_value(&v)),
    }
}

fn param(func: &str, args: &str) -> Result<Json, String> {
    Ok(doc(&format!(r#"{{"func": "{func}", "args": {args}}}"#)))
}

fn url(r: &Request) -> String {
    let mut out = String::new();
    for p in &r.url {
        match p {
            Piece::Text(s) => out.push_str(s),
            Piece::Segment(j) => out.push_str(&quote(&to_value(j).to_string())),
        }
    }
    out
}

fn query(r: &Request) -> Vec<(String, String)> {
    r.query
        .iter()
        .map(|(k, p)| {
            let v = match p {
                Param::Text(s) => s.clone(),
                Param::Doc(j) => to_value(j).to_string(),
                Param::Joined(parts) => parts
                    .iter()
                    .map(|x| match x {
                        Part::Text(s) => s.clone(),
                        Part::Doc(j) => to_value(j).to_string(),
                    })
                    .collect::<Vec<_>>()
                    .join(","),
            };
            (k.clone(), v)
        })
        .collect()
}

fn header(r: &Request, k: &str) -> Option<String> {
    r.headers.iter().find(|(n, _)| n == k).map(|(_, v)| v.clone())
}

fn payload(p: &Payload) -> String {
    match p {
        Payload::Text(s) => s.clone(),
        Payload::Doc(j) => to_value(j).to_string(),
        Payload::Note(s, j) => format!("{s}{}", to_value(j)),
        Payload::Quoted(h, part, t) => {
            let inner = match part {
                Part::Text(s) => s.clone(),
                Part::Doc(j) => to_value(j).to_string(),
            };
            format!("{h}{inner:?}{t}")
        }
    }
}

fn sent(a: &Action) -> &Request {
    match a {
        Action::Send(r) => r,
        _ => panic!("expected a request"),
    }
}

fn slept(a: &Action) -> u64 {
    match a {
        Action::Sleep(ms) => *ms,
        _ => panic!("expected a sleep"),
    }
}

/// The verdict a finished delivery ends with: its kind and its text (a
/// rejection as its document).
fn finished(a: &Action) -> (&'static str, Value) {
    match a {
        Action::Finish(Verdict::Resolve(p)) => ("resolve", Value::String(payload(p))),
        Action::Finish(Verdict::Reject(j)) => ("reject", to_value(j)),
        Action::Finish(Verdict::Halt(p)) => ("halt", Value::String(payload(p))),
        Action::Finish(Verdict::Release(p)) => ("release", Value::String(payload(p))),
        _ => panic!("expected a verdict"),
    }
}

fn resolved_doc(a: &Action) -> Value {
    match a {
        Action::Finish(Verdict::Resolve(Payload::Doc(j))) => to_value(j),
        _ => panic!("expected a resolved document"),
    }
}

// ─── Fixtures ───────────────────────────────────────────────────────────────

fn config() -> Config {
    Config { base_url: "http://g".to_string(), token: "sa".to_string() }
}

fn promise() -> Promise {
    Promise { id: "q-1".to_string(), timeout_at: 1_000, param_data: None }
}

fn go(s: Stage, e: Event) -> (Stage, Action) {
    step(&config(), &promise(), s, e)
}

#[test]
fn query_run_sends_the_four_keys_with_a_long_timeout() {
    let (_, a) = begin(
        &config(),
        &promise(),
        param("query.run", r#"{"to": "now", "queries": [{"refId": "A"}], "junk": 1, "from": "now-1h"}"#),
    );
    let r = sent(&a);
    assert!(r.method == Method::Post);
    assert_eq!(url(r), "http://g/api/ds/query");
    assert_eq!(header(r, "Authorization").as_deref(), Some("Bearer sa"));
    assert_eq!(r.timeout_ms, 60_000);
    assert_eq!(
        to_value(r.body.as_ref().unwrap()),
        value(r#"{"queries": [{"refId": "A"}], "from": "now-1h", "to": "now"}"#)
    );
}

#[test]
fn query_run_resolves_with_the_body() {
    let (s, _) = begin(&config(), &promise(), param("query.run", "{}"));
    let (_, a) = go(s, Event::Reply(resp(200, r#"{"results": {}}"#)));
    assert_eq!(finished(&a), ("resolve", Value::String(r#"{"results": {}}"#.to_string())));
}

#[test]
fn query_run_rejects_query_failed() {
    let (s, _) = begin(&config(), &promise(), param("query.run", "{}"));
    let text = r#"{"results": {"A": {"error": "bad query", "status": 400}, "B": {"frames": []}}}"#;
    let (_, a) = go(s, Event::Reply(resp(400, text)));
    assert_eq!(
        finished(&a),
        (
            "reject",
            value(r#"{"code": "query_failed", "detail": {"A": {"error": "bad query", "status": 400}, "B": {"frames": []}}}"#)
        )
    );
}

#[test]
fn query_run_releases_when_a_system_was_not_reached() {
    let (s, _) = begin(&config(), &promise(), param("query.run", "{}"));
    let text = r#"{"results": {"A": {"error": "bad", "status": 400}, "B": {"error": "down", "status": 502}}}"#;
    let (_, a) = go(s, Event::Reply(resp(400, text)));
    assert_eq!(finished(&a), ("release", Value::String(text.to_string())));
    let (s, _) = begin(&config(), &promise(), param("query.run", "{}"));
    let text = r#"{"results": {"A": {"error": "slow down", "status": 429}}}"#;
    let (_, a) = go(s, Event::Reply(resp(400, text)));
    assert_eq!(finished(&a), ("release", Value::String(text.to_string())));
}

#[test]
fn query_run_rejects_a_malformed_request() {
    let (s, _) = begin(&config(), &promise(), param("query.run", "{}"));
    let (_, a) = go(s, Event::Reply(resp(400, r#"{"message": "bad request", "results": null}"#)));
    assert_eq!(
        finished(&a),
        ("reject", value(r#"{"code": "invalid_request", "detail": {"message": "bad request", "results": null}}"#))
    );
}

#[test]
fn query_run_halts_on_access_denied() {
    let (s, _) = begin(&config(), &promise(), param("query.run", "{}"));
    let (_, a) = go(s, Event::Reply(resp(403, "Access denied")));
    assert_eq!(finished(&a), ("halt", Value::String("Access denied".to_string())));
}

#[test]
fn datasource_list_rejects_invalid_request_with_the_text() {
    let (s, a) = begin(&config(), &promise(), param("datasource.list", "{}"));
    assert_eq!(url(sent(&a)), "http://g/api/datasources");
    assert_eq!(sent(&a).timeout_ms, 10_000);
    let (_, a) = go(s, Event::Reply(resp(404, "nope")));
    assert_eq!(finished(&a), ("reject", value(r#"{"code": "invalid_request", "detail": "nope"}"#)));
}

#[test]
fn datasource_get_rejects_not_found() {
    let (s, a) = begin(&config(), &promise(), param("datasource.get", r#"{"uid": "p/q"}"#));
    assert_eq!(url(sent(&a)), "http://g/api/datasources/uid/p%2Fq");
    let (_, a) = go(s, Event::Reply(resp(404, r#"{"message": "Data source not found"}"#)));
    assert_eq!(
        finished(&a),
        ("reject", value(r#"{"code": "not_found", "detail": {"message": "Data source not found"}}"#))
    );
}

#[test]
fn datasource_get_releases_a_lost_request() {
    let (s, _) = begin(&config(), &promise(), param("datasource.get", r#"{"uid": "p"}"#));
    let (_, a) = go(s, Event::Lost("dns".to_string(), false));
    assert_eq!(finished(&a), ("release", Value::String("dns".to_string())));
}
