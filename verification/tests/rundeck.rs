use resonate_plugins::frame::sanitize;
use resonate_plugins::http::{Action, Event, Method, Param, Part, Piece, Request, Response};
use resonate_plugins::json::{Json, Number};
use resonate_plugins::promise::Promise;
use resonate_plugins::rundeck::{begin, step, Config, Stage};
use resonate_plugins::text::quote;
use resonate_plugins::verdict::{Payload, Verdict};
use serde_json::Value;

// ─── Plain values to and from JSON text ─────────────────────────────────────

fn from_value(v: &Value) -> Json {
    match v {
        Value::Null => Json::Null,
        Value::Bool(b) => Json::Bool(*b),
        Value::Number(n) => Json::Num(Number {
            text: n.to_string(),
            int: n.as_i64(),
            zero: n.as_f64() == Some(0.0),
        }),
        Value::String(s) => Json::Str(s.clone()),
        Value::Array(a) => Json::Array(a.iter().map(from_value).collect()),
        Value::Object(m) => {
            Json::Object(m.iter().map(|(k, v)| (k.clone(), from_value(v))).collect())
        }
    }
}

fn to_value(j: &Json) -> Value {
    match j {
        Json::Null => Value::Null,
        Json::Bool(b) => Value::Bool(*b),
        Json::Num(n) => serde_json::from_str(&n.text).unwrap(),
        Json::Str(s) => Value::String(s.clone()),
        Json::Array(a) => Value::Array(a.iter().map(to_value).collect()),
        Json::Object(m) => {
            let mut out = serde_json::Map::new();
            for (k, v) in m {
                out.insert(k.clone(), to_value(v));
            }
            Value::Object(out)
        }
    }
}

fn doc(text: &str) -> Json {
    from_value(&serde_json::from_str::<Value>(text).unwrap())
}

fn value(text: &str) -> Value {
    serde_json::from_str(text).unwrap()
}

fn resp(status: u16, text: &str) -> Response {
    Response {
        status,
        text: text.to_string(),
        body: serde_json::from_str::<Value>(text).ok().map(|v| from_value(&v)),
    }
}

fn param(func: &str, args: &str) -> Result<Json, String> {
    Ok(doc(&format!(r#"{{"func": "{func}", "args": {args}}}"#)))
}

fn url(r: &Request) -> String {
    let mut out = String::new();
    for p in &r.url {
        match p {
            Piece::Text(s) => out.push_str(s),
            Piece::Segment(j) => out.push_str(&quote(&to_value(j).to_string())),
        }
    }
    out
}

fn query(r: &Request) -> Vec<(String, String)> {
    r.query
        .iter()
        .map(|(k, p)| {
            let v = match p {
                Param::Text(s) => s.clone(),
                Param::Doc(j) => to_value(j).to_string(),
                Param::Joined(parts) => parts
                    .iter()
                    .map(|x| match x {
                        Part::Text(s) => s.clone(),
                        Part::Doc(j) => to_value(j).to_string(),
                    })
                    .collect::<Vec<_>>()
                    .join(","),
            };
            (k.clone(), v)
        })
        .collect()
}

fn header(r: &Request, k: &str) -> Option<String> {
    r.headers.iter().find(|(n, _)| n == k).map(|(_, v)| v.clone())
}

fn payload(p: &Payload) -> String {
    match p {
        Payload::Text(s) => s.clone(),
        Payload::Doc(j) => to_value(j).to_string(),
        Payload::Note(s, j) => format!("{s}{}", to_value(j)),
        Payload::Quoted(h, part, t) => {
            let inner = match part {
                Part::Text(s) => s.clone(),
                Part::Doc(j) => to_value(j).to_string(),
            };
            format!("{h}{inner:?}{t}")
        }
    }
}

fn sent(a: &Action) -> &Request {
    match a {
        Action::Send(r) => r,
        _ => panic!("expected a request"),
    }
}

fn slept(a: &Action) -> u64 {
    match a {
        Action::Sleep(ms) => *ms,
        _ => panic!("expected a sleep"),
    }
}

/// The verdict a finished delivery ends with: its kind and its text (a
/// rejection as its document).
fn finished(a: &Action) -> (&'static str, Value) {
    match a {
        Action::Finish(Verdict::Resolve(p)) => ("resolve", Value::String(payload(p))),
        Action::Finish(Verdict::Reject(j)) => ("reject", to_value(j)),
        Action::Finish(Verdict::Halt(p)) => ("halt", Value::String(payload(p))),
        Action::Finish(Verdict::Release(p)) => ("release", Value::String(payload(p))),
        _ => panic!("expected a verdict"),
    }
}

fn resolved_doc(a: &Action) -> Value {
    match a {
        Action::Finish(Verdict::Resolve(Payload::Doc(j))) => to_value(j),
        _ => panic!("expected a resolved document"),
    }
}

// ─── Fixtures ───────────────────────────────────────────────────────────────

const DEADLINE: i64 = 1_000_000;

fn config() -> Config {
    Config {
        base_url: "http://rd".to_string(),
        api_token: "tok".to_string(),
        poll: 5_000,
        poll_job_run: Some(1_000),
        poll_job_retry: None,
        poll_execution_abort: Some(250),
    }
}

fn promise() -> Promise {
    Promise { id: "job run 1".to_string(), timeout_at: DEADLINE, param_data: None }
}

fn go(s: Stage, e: Event, now: i64) -> (Stage, Action) {
    step(&config(), &promise(), s, e, now)
}

#[test]
fn the_job_cadences_fall_back_to_poll() {
    assert_eq!(config().poll_job_run(), 1_000);
    assert_eq!(config().poll_job_retry(), 5_000);
    assert_eq!(config().poll_execution_abort(), 250);
}

#[test]
fn job_run_resolves_when_the_execution_succeeds() {
    let token = sanitize("job run 1");
    let (s, a) = begin(&config(), &promise(), param("job.run", r#"{"id": "j 1", "argString": "-a 1", "loglevel": "INFO"}"#));
    let r = sent(&a);
    assert_eq!(url(r), "http://rd/api/59/job/j%201/info");
    assert_eq!(header(r, "X-Rundeck-Auth-Token").as_deref(), Some("tok"));
    assert_eq!(header(r, "Accept").as_deref(), Some("application/json"));
    let (s, a) = go(s, Event::Reply(resp(200, r#"{"project": "ops"}"#)), 0);
    let r = sent(&a);
    assert_eq!(url(r), "http://rd/api/59/project/ops/executions");
    assert_eq!(
        query(r),
        vec![
            ("optionFilter".to_string(), format!("-rescorr {token}")),
            ("max".to_string(), "20".to_string()),
        ]
    );
    let (s, a) = go(s, Event::Reply(resp(200, r#"{"executions": []}"#)), 0);
    let r = sent(&a);
    assert!(r.method == Method::Post);
    assert_eq!(url(r), "http://rd/api/59/job/j%201/run");
    assert_eq!(
        to_value(r.body.as_ref().unwrap()),
        serde_json::from_str::<Value>(&format!(r#"{{"loglevel": "INFO", "argString": "-a 1 -rescorr {token}"}}"#)).unwrap()
    );
    let (s, a) = go(s, Event::Reply(resp(200, r#"{"id": 77, "status": "running"}"#)), 10);
    assert_eq!(url(sent(&a)), "http://rd/api/59/execution/77");
    let (s, a) = go(s, Event::Reply(resp(200, r#"{"id": 77, "status": "running"}"#)), 20);
    assert_eq!(slept(&a), 1_000);
    let (s, _) = go(s, Event::Woke, 1_020);
    let (_, a) = go(s, Event::Reply(resp(200, r#"{"id": 77, "status": "succeeded", "project": "ops"}"#)), 1_030);
    let v = resolved_doc(&a);
    assert_eq!(v["id"], 77);
    assert_eq!(v["status"], "succeeded");
    assert_eq!(v["href"], Value::Null);
}

#[test]
fn job_run_reattaches_to_the_stamped_execution() {
    let token = sanitize("job run 1");
    let (s, _) = begin(&config(), &promise(), param("job.run", r#"{"id": "j"}"#));
    let (s, _) = go(s, Event::Reply(resp(200, r#"{"project": "ops"}"#)), 0);
    let text = format!(r#"{{"executions": [{{"id": 5, "job": {{"options": {{"rescorr": "{token}x"}}}}}}, {{"id": 6, "job": {{"options": {{"rescorr": "{token}"}}}}}}]}}"#);
    let (_, a) = go(s, Event::Reply(resp(200, &text)), 0);
    assert_eq!(url(sent(&a)), "http://rd/api/59/execution/6");
}

#[test]
fn job_submit_resolves_with_the_created_execution() {
    let (s, _) = begin(&config(), &promise(), param("job.submit", r#"{"id": "j", "options": {"a": "1"}}"#));
    let (s, _) = go(s, Event::Reply(resp(200, r#"{"project": "ops"}"#)), 0);
    let (s, a) = go(s, Event::Reply(resp(200, r#"{"executions": []}"#)), 0);
    let body = to_value(sent(&a).body.as_ref().unwrap());
    assert_eq!(body["options"]["a"], "1");
    assert_eq!(body["options"]["rescorr"], Value::String(sanitize("job run 1")));
    let (_, a) = go(s, Event::Reply(resp(200, r#"{"id": 9}"#)), 0);
    assert_eq!(finished(&a), ("resolve", Value::String(r#"{"id": 9}"#.to_string())));
}

#[test]
fn job_run_rejects_job_not_found() {
    let (s, _) = begin(&config(), &promise(), param("job.run", r#"{"id": "j"}"#));
    let (_, a) = go(s, Event::Reply(resp(404, r#"{"message": "no job"}"#)), 0);
    assert_eq!(finished(&a), ("reject", value(r#"{"code": "job_not_found", "detail": "no job"}"#)));
}

#[test]
fn job_run_rejects_execution_failed() {
    let (s, _) = begin(&config(), &promise(), param("job.run", r#"{"id": "j"}"#));
    let (s, _) = go(s, Event::Reply(resp(200, r#"{"project": "ops"}"#)), 0);
    let (s, _) = go(s, Event::Reply(resp(200, r#"{"executions": []}"#)), 0);
    let (s, _) = go(s, Event::Reply(resp(200, r#"{"id": 3}"#)), 0);
    let (_, a) = go(s, Event::Reply(resp(200, r#"{"id": 3, "status": "failed"}"#)), 0);
    assert_eq!(
        finished(&a),
        ("reject", value(r#"{"code": "execution_failed", "detail": {"id": 3, "status": "failed"}}"#))
    );
}

#[test]
fn job_run_releases_while_the_job_runs_its_limit() {
    let (s, _) = begin(&config(), &promise(), param("job.run", r#"{"id": "j"}"#));
    let (s, _) = go(s, Event::Reply(resp(200, r#"{"project": "ops"}"#)), 0);
    let (s, _) = go(s, Event::Reply(resp(200, r#"{"executions": []}"#)), 0);
    let (_, a) = go(s, Event::Reply(resp(409, "limit")), 0);
    assert_eq!(finished(&a), ("release", Value::String("limit".to_string())));
}

#[test]
fn execution_get_halts_on_a_rejected_token() {
    let (s, a) = begin(&config(), &promise(), param("execution.get", r#"{"id": 12}"#));
    assert_eq!(url(sent(&a)), "http://rd/api/59/execution/12");
    let (_, a) = go(s, Event::Reply(resp(403, "token")), 0);
    assert_eq!(finished(&a), ("halt", Value::String("token".to_string())));
}

#[test]
fn execution_abort_rejects_abort_failed() {
    let (s, a) = begin(&config(), &promise(), param("execution.abort", r#"{"id": "12", "asUser": "ops"}"#));
    let r = sent(&a);
    assert!(r.method == Method::Post);
    assert_eq!(url(r), "http://rd/api/59/execution/12/abort");
    assert_eq!(query(r), vec![("asUser".to_string(), "ops".to_string())]);
    let (_, a) = go(
        s,
        Event::Reply(resp(200, r#"{"abort": {"status": "failed", "reason": "busy"}, "execution": {"status": "running"}}"#)),
        0,
    );
    assert_eq!(finished(&a), ("reject", value(r#"{"code": "abort_failed", "detail": "busy"}"#)));
}

#[test]
fn execution_list_of_every_project_reads_the_running_list() {
    let (_, a) = begin(&config(), &promise(), param("execution.list", r#"{"project": "*", "max": 5, "statusFilter": "x"}"#));
    let r = sent(&a);
    assert_eq!(url(r), "http://rd/api/59/project/*/executions/running");
    assert_eq!(query(r), vec![("max".to_string(), "5".to_string())]);
}

#[test]
fn a_watched_execution_releases_at_the_deadline() {
    let (s, _) = begin(&config(), &promise(), param("job.run", r#"{"id": "j"}"#));
    let (s, _) = go(s, Event::Reply(resp(200, r#"{"project": "ops"}"#)), 0);
    let (s, _) = go(s, Event::Reply(resp(200, r#"{"executions": []}"#)), 0);
    let (_, a) = go(s, Event::Reply(resp(200, r#"{"id": 3}"#)), DEADLINE);
    assert_eq!(finished(&a), ("release", Value::String("promise timed out".to_string())));
}

#[test]
fn a_redelivery_sends_the_same_requests() {
    let later = Promise { id: "job run 1".to_string(), timeout_at: DEADLINE * 2, param_data: None };
    let args = r#"{"id": "j", "argString": "-x"}"#;
    let (s1, a1) = begin(&config(), &promise(), param("job.run", args));
    let (s2, a2) = begin(&config(), &later, param("job.run", args));
    assert_eq!(url(sent(&a1)), url(sent(&a2)));
    let info = r#"{"project": "ops"}"#;
    let (s1, a1) = step(&config(), &promise(), s1, Event::Reply(resp(200, info)), 0);
    let (s2, a2) = step(&config(), &later, s2, Event::Reply(resp(200, info)), 5);
    assert_eq!(query(sent(&a1)), query(sent(&a2)));
    let (_, a1) = step(&config(), &promise(), s1, Event::Reply(resp(200, r#"{"executions": []}"#)), 0);
    let (_, a2) = step(&config(), &later, s2, Event::Reply(resp(200, r#"{"executions": []}"#)), 5);
    assert_eq!(to_value(sent(&a1).body.as_ref().unwrap()), to_value(sent(&a2).body.as_ref().unwrap()));
}

#[test]
fn job_submit_refinds_its_execution_on_re_entry() {
    let token = sanitize("job run 1");
    let (s, _) = begin(&config(), &promise(), param("job.submit", r#"{"id": "j"}"#));
    let (s, _) = go(s, Event::Reply(resp(200, r#"{"project": "ops"}"#)), 0);
    let text = format!(r#"{{"executions": [{{"id": 6, "job": {{"options": {{"rescorr": "{token}"}}}}}}]}}"#);
    let (_, a) = go(s, Event::Reply(resp(200, &text)), 0);
    let doc = match &a {
        Action::Finish(Verdict::Resolve(Payload::Doc(j))) => to_value(j),
        _ => panic!("expected the found execution"),
    };
    assert_eq!(doc["id"], 6);
}
