use resonate_plugins::airflow::{begin, step, Config, Stage};
use resonate_plugins::frame::sanitize;
use resonate_plugins::http::{Action, Event, Method, Param, Part, Piece, Request, Response};
use resonate_plugins::json::{Json, Number};
use resonate_plugins::promise::Promise;
use resonate_plugins::text::quote;
use resonate_plugins::verdict::{Payload, Verdict};
use serde_json::Value;

// ─── Plain values to and from JSON text ─────────────────────────────────────

fn from_value(v: &Value) -> Json {
    match v {
        Value::Null => Json::Null,
        Value::Bool(b) => Json::Bool(*b),
        Value::Number(n) => Json::Num(Number {
            text: n.to_string(),
            int: n.as_i64(),
            zero: n.as_f64() == Some(0.0),
        }),
        Value::String(s) => Json::Str(s.clone()),
        Value::Array(a) => Json::Array(a.iter().map(from_value).collect()),
        Value::Object(m) => {
            Json::Object(m.iter().map(|(k, v)| (k.clone(), from_value(v))).collect())
        }
    }
}

fn to_value(j: &Json) -> Value {
    match j {
        Json::Null => Value::Null,
        Json::Bool(b) => Value::Bool(*b),
        Json::Num(n) => serde_json::from_str(&n.text).unwrap(),
        Json::Str(s) => Value::String(s.clone()),
        Json::Array(a) => Value::Array(a.iter().map(to_value).collect()),
        Json::Object(m) => {
            let mut out = serde_json::Map::new();
            for (k, v) in m {
                out.insert(k.clone(), to_value(v));
            }
            Value::Object(out)
        }
    }
}

fn doc(text: &str) -> Json {
    from_value(&serde_json::from_str::<Value>(text).unwrap())
}

fn value(text: &str) -> Value {
    serde_json::from_str(text).unwrap()
}

fn resp(status: u16, text: &str) -> Response {
    Response {
        status,
        text: text.to_string(),
        body: serde_json::from_str::<Value>(text).ok().map(|v| from_value(&v)),
    }
}

fn param(func: &str, args: &str) -> Result<Json, String> {
    Ok(doc(&format!(r#"{{"func": "{func}", "args": {args}}}"#)))
}

fn url(r: &Request) -> String {
    let mut out = String::new();
    for p in &r.url {
        match p {
            Piece::Text(s) => out.push_str(s),
            Piece::Segment(j) => out.push_str(&quote(&to_value(j).to_string())),
        }
    }
    out
}

fn query(r: &Request) -> Vec<(String, String)> {
    r.query
        .iter()
        .map(|(k, p)| {
            let v = match p {
                Param::Text(s) => s.clone(),
                Param::Doc(j) => to_value(j).to_string(),
                Param::Joined(parts) => parts
                    .iter()
                    .map(|x| match x {
                        Part::Text(s) => s.clone(),
                        Part::Doc(j) => to_value(j).to_string(),
                    })
                    .collect::<Vec<_>>()
                    .join(","),
            };
            (k.clone(), v)
        })
        .collect()
}

fn header(r: &Request, k: &str) -> Option<String> {
    r.headers.iter().find(|(n, _)| n == k).map(|(_, v)| v.clone())
}

fn payload(p: &Payload) -> String {
    match p {
        Payload::Text(s) => s.clone(),
        Payload::Doc(j) => to_value(j).to_string(),
        Payload::Note(s, j) => format!("{s}{}", to_value(j)),
        Payload::Quoted(h, part, t) => {
            let inner = match part {
                Part::Text(s) => s.clone(),
                Part::Doc(j) => to_value(j).to_string(),
            };
            format!("{h}{inner:?}{t}")
        }
    }
}

fn sent(a: &Action) -> &Request {
    match a {
        Action::Send(r) => r,
        _ => panic!("expected a request"),
    }
}

fn slept(a: &Action) -> u64 {
    match a {
        Action::Sleep(ms) => *ms,
        _ => panic!("expected a sleep"),
    }
}

/// The verdict a finished delivery ends with: its kind and its text (a
/// rejection as its document).
fn finished(a: &Action) -> (&'static str, Value) {
    match a {
        Action::Finish(Verdict::Resolve(p)) => ("resolve", Value::String(payload(p))),
        Action::Finish(Verdict::Reject(j)) => ("reject", to_value(j)),
        Action::Finish(Verdict::Halt(p)) => ("halt", Value::String(payload(p))),
        Action::Finish(Verdict::Release(p)) => ("release", Value::String(payload(p))),
        _ => panic!("expected a verdict"),
    }
}

fn resolved_doc(a: &Action) -> Value {
    match a {
        Action::Finish(Verdict::Resolve(Payload::Doc(j))) => to_value(j),
        _ => panic!("expected a resolved document"),
    }
}

// ─── Fixtures ───────────────────────────────────────────────────────────────

const DEADLINE: i64 = 1_000_000;

fn config() -> Config {
    Config {
        base_url: "http://af".to_string(),
        username: "u".to_string(),
        password: "pw".to_string(),
        poll: 3_000,
    }
}

fn promise() -> Promise {
    Promise { id: "etl 1".to_string(), timeout_at: DEADLINE, param_data: None }
}

fn go(s: Stage, e: Event, now: i64) -> (Stage, Action) {
    step(&config(), &promise(), s, e, now)
}

fn token() -> Event {
    Event::Reply(resp(201, r#"{"access_token": "jwt"}"#))
}

#[test]
fn dagrun_trigger_resolves_when_the_run_succeeds() {
    let (s, a) = begin(&config(), param("dagrun.trigger", r#"{"dag_id": "etl", "conf": {"x": 1}}"#));
    let r = sent(&a);
    assert!(r.method == Method::Post);
    assert_eq!(url(r), "http://af/auth/token");
    assert_eq!(to_value(r.body.as_ref().unwrap()), value(r#"{"username": "u", "password": "pw"}"#));
    let run = quote(&sanitize("etl 1"));
    let (s, a) = go(s, token(), 0);
    let r = sent(&a);
    assert_eq!(url(r), format!("http://af/api/v2/dags/etl/dagRuns/{run}"));
    assert_eq!(header(r, "Authorization").as_deref(), Some("Bearer jwt"));
    // No run with this id yet: create it.
    let (s, a) = go(s, Event::Reply(resp(404, "{}")), 0);
    let r = sent(&a);
    assert_eq!(url(r), "http://af/api/v2/dags/etl/dagRuns");
    let body = to_value(r.body.as_ref().unwrap());
    assert_eq!(body["dag_run_id"], Value::String(sanitize("etl 1")));
    assert_eq!(body["logical_date"], Value::Null);
    assert_eq!(body["conf"], value(r#"{"x": 1}"#));
    assert!(body.get("dag_id").is_none());
    let (s, a) = go(s, Event::Reply(resp(200, r#"{"state": "queued"}"#)), 10);
    assert_eq!(url(sent(&a)), format!("http://af/api/v2/dags/etl/dagRuns/{run}"));
    let (s, a) = go(s, Event::Reply(resp(200, r#"{"state": "running"}"#)), 20);
    assert_eq!(slept(&a), 3_000);
    let (s, _) = go(s, Event::Woke, 3_020);
    let (_, a) = go(s, Event::Reply(resp(200, r#"{"dag_id": "etl", "state": "success", "extra": 1}"#)), 3_030);
    let v = resolved_doc(&a);
    assert_eq!(v["state"], "success");
    assert_eq!(v["dag_id"], "etl");
    assert_eq!(v["note"], Value::Null);
    assert!(v.get("extra").is_none());
}

#[test]
fn dagrun_trigger_rejects_run_failed() {
    let (s, _) = begin(&config(), param("dagrun.trigger", r#"{"dag_id": "etl"}"#));
    let (s, _) = go(s, token(), 0);
    // The run exists already: an earlier delivery created it.
    let (s, a) = go(s, Event::Reply(resp(200, r#"{"state": "running"}"#)), 0);
    assert!(sent(&a).method == Method::Get);
    let (_, a) = go(s, Event::Reply(resp(200, r#"{"state": "failed"}"#)), 0);
    assert_eq!(
        finished(&a),
        ("reject", value(r#"{"code": "run_failed", "detail": {"state": "failed"}}"#))
    );
}

#[test]
fn dagrun_trigger_rejects_dag_not_found() {
    let (s, _) = begin(&config(), param("dagrun.trigger", r#"{"dag_id": "nope"}"#));
    let (s, _) = go(s, token(), 0);
    let (s, _) = go(s, Event::Reply(resp(404, "{}")), 0);
    let (_, a) = go(s, Event::Reply(resp(404, r#"{"detail": "DAG not found"}"#)), 0);
    assert_eq!(
        finished(&a),
        ("reject", value(r#"{"code": "dag_not_found", "detail": "DAG not found"}"#))
    );
}

#[test]
fn dagrun_trigger_reauthenticates_when_the_token_expires() {
    let (s, _) = begin(&config(), param("dagrun.trigger", r#"{"dag_id": "etl"}"#));
    let (s, _) = go(s, token(), 0);
    let (s, _) = go(s, Event::Reply(resp(200, r#"{"state": "running"}"#)), 0);
    let (s, a) = go(s, Event::Reply(resp(401, "expired")), 5);
    assert_eq!(url(sent(&a)), "http://af/auth/token");
    let (s, a) = go(s, Event::Reply(resp(201, r#"{"access_token": "jwt2"}"#)), 6);
    assert_eq!(header(sent(&a), "Authorization").as_deref(), Some("Bearer jwt2"));
    let (_, a) = go(s, Event::Reply(resp(200, r#"{"state": "success"}"#)), 7);
    resolved_doc(&a);
}

#[test]
fn dagrun_trigger_releases_at_the_deadline() {
    let (s, _) = begin(&config(), param("dagrun.trigger", r#"{"dag_id": "etl"}"#));
    let (s, _) = go(s, token(), 0);
    let (_, a) = go(s, Event::Reply(resp(200, r#"{"state": "running"}"#)), DEADLINE);
    assert_eq!(finished(&a), ("release", Value::String("promise timed out".to_string())));
}

#[test]
fn dagrun_trigger_sleeps_no_further_than_the_deadline() {
    let (s, _) = begin(&config(), param("dagrun.trigger", r#"{"dag_id": "etl"}"#));
    let (s, _) = go(s, token(), 0);
    let (s, _) = go(s, Event::Reply(resp(200, r#"{"state": "queued"}"#)), DEADLINE - 1_000);
    let (_, a) = go(s, Event::Reply(resp(200, r#"{"state": "queued"}"#)), DEADLINE - 500);
    assert_eq!(slept(&a), 1_000);
}

#[test]
fn rejected_credentials_halt() {
    let (s, _) = begin(&config(), param("dag.list", "{}"));
    let (_, a) = go(s, Event::Reply(resp(401, "bad creds")), 0);
    assert_eq!(finished(&a), ("halt", Value::String("credentials rejected: bad creds".to_string())));
}

#[test]
fn dagrun_get_rejects_not_found() {
    let (s, _) = begin(&config(), param("dagrun.get", r#"{"dag_id": "a", "dag_run_id": "b c"}"#));
    let (s, a) = go(s, token(), 0);
    assert_eq!(url(sent(&a)), "http://af/api/v2/dags/a/dagRuns/b%20c");
    let (_, a) = go(s, Event::Reply(resp(404, "{}")), 0);
    assert_eq!(finished(&a), ("reject", value(r#"{"code": "not_found"}"#)));
}

#[test]
fn dagrun_get_rejects_a_missing_run_id() {
    let (s, _) = begin(&config(), param("dagrun.get", r#"{"dag_id": "a"}"#));
    let (_, a) = go(s, token(), 0);
    assert_eq!(
        finished(&a),
        ("reject", value(r#"{"code": "invalid_request", "detail": "args.dag_run_id is required and must be a string"}"#))
    );
}

#[test]
fn an_unknown_func_is_rejected_before_any_request() {
    let (_, a) = begin(&config(), param("dag.pause", "{}"));
    assert_eq!(finished(&a), ("reject", value(r#"{"code": "unknown_func", "detail": "dag.pause"}"#)));
}
