use resonate_plugins::http::{Action, Event, Method, Param, Part, Piece, Request, Response};
use resonate_plugins::json::{Json, Number};
use resonate_plugins::n8n::{begin, poll_default, step, Config, Stage};
use resonate_plugins::promise::Promise;
use resonate_plugins::text::quote;
use resonate_plugins::verdict::{Payload, Verdict};
use serde_json::Value;

// ─── Plain values to and from JSON text ─────────────────────────────────────

fn from_value(v: &Value) -> Json {
    match v {
        Value::Null => Json::Null,
        Value::Bool(b) => Json::Bool(*b),
        Value::Number(n) => Json::Num(Number {
            text: n.to_string(),
            int: n.as_i64(),
            zero: n.as_f64() == Some(0.0),
        }),
        Value::String(s) => Json::Str(s.clone()),
        Value::Array(a) => Json::Array(a.iter().map(from_value).collect()),
        Value::Object(m) => {
            Json::Object(m.iter().map(|(k, v)| (k.clone(), from_value(v))).collect())
        }
    }
}

fn to_value(j: &Json) -> Value {
    match j {
        Json::Null => Value::Null,
        Json::Bool(b) => Value::Bool(*b),
        Json::Num(n) => serde_json::from_str(&n.text).unwrap(),
        Json::Str(s) => Value::String(s.clone()),
        Json::Array(a) => Value::Array(a.iter().map(to_value).collect()),
        Json::Object(m) => {
            let mut out = serde_json::Map::new();
            for (k, v) in m {
                out.insert(k.clone(), to_value(v));
            }
            Value::Object(out)
        }
    }
}

fn doc(text: &str) -> Json {
    from_value(&serde_json::from_str::<Value>(text).unwrap())
}

fn value(text: &str) -> Value {
    serde_json::from_str(text).unwrap()
}

fn resp(status: u16, text: &str) -> Response {
    Response {
        status,
        text: text.to_string(),
        body: serde_json::from_str::<Value>(text).ok().map(|v| from_value(&v)),
    }
}

fn param(func: &str, args: &str) -> Result<Json, String> {
    Ok(doc(&format!(r#"{{"func": "{func}", "args": {args}}}"#)))
}

fn url(r: &Request) -> String {
    let mut out = String::new();
    for p in &r.url {
        match p {
            Piece::Text(s) => out.push_str(s),
            Piece::Segment(j) => out.push_str(&quote(&to_value(j).to_string())),
        }
    }
    out
}

fn query(r: &Request) -> Vec<(String, String)> {
    r.query
        .iter()
        .map(|(k, p)| {
            let v = match p {
                Param::Text(s) => s.clone(),
                Param::Doc(j) => to_value(j).to_string(),
                Param::Joined(parts) => parts
                    .iter()
                    .map(|x| match x {
                        Part::Text(s) => s.clone(),
                        Part::Doc(j) => to_value(j).to_string(),
                    })
                    .collect::<Vec<_>>()
                    .join(","),
            };
            (k.clone(), v)
        })
        .collect()
}

fn header(r: &Request, k: &str) -> Option<String> {
    r.headers.iter().find(|(n, _)| n == k).map(|(_, v)| v.clone())
}

fn payload(p: &Payload) -> String {
    match p {
        Payload::Text(s) => s.clone(),
        Payload::Doc(j) => to_value(j).to_string(),
        Payload::Note(s, j) => format!("{s}{}", to_value(j)),
        Payload::Quoted(h, part, t) => {
            let inner = match part {
                Part::Text(s) => s.clone(),
                Part::Doc(j) => to_value(j).to_string(),
            };
            format!("{h}{inner:?}{t}")
        }
    }
}

fn sent(a: &Action) -> &Request {
    match a {
        Action::Send(r) => r,
        _ => panic!("expected a request"),
    }
}

fn slept(a: &Action) -> u64 {
    match a {
        Action::Sleep(ms) => *ms,
        _ => panic!("expected a sleep"),
    }
}

/// The verdict a finished delivery ends with: its kind and its text (a
/// rejection as its document).
fn finished(a: &Action) -> (&'static str, Value) {
    match a {
        Action::Finish(Verdict::Resolve(p)) => ("resolve", Value::String(payload(p))),
        Action::Finish(Verdict::Reject(j)) => ("reject", to_value(j)),
        Action::Finish(Verdict::Halt(p)) => ("halt", Value::String(payload(p))),
        Action::Finish(Verdict::Release(p)) => ("release", Value::String(payload(p))),
        _ => panic!("expected a verdict"),
    }
}

fn resolved_doc(a: &Action) -> Value {
    match a {
        Action::Finish(Verdict::Resolve(Payload::Doc(j))) => to_value(j),
        _ => panic!("expected a resolved document"),
    }
}

// ─── Fixtures ───────────────────────────────────────────────────────────────

fn config() -> Config {
    Config { base_url: "http://n8n".to_string(), api_key: "key".to_string(), poll: 5_000 }
}

const DEADLINE: i64 = 1_000_000;

fn promise() -> Promise {
    Promise { id: "p-1".to_string(), timeout_at: DEADLINE, param_data: None }
}

fn go(s: Stage, e: Event, now: i64) -> (Stage, Action) {
    step(&config(), &promise(), s, e, now)
}

// ─── Ordinary operations ────────────────────────────────────────────────────

#[test]
fn poll_defaults_to_five_seconds() {
    assert_eq!(poll_default(), 5_000);
}

#[test]
fn workflow_get_quotes_the_id_and_sends_the_named_query() {
    let (_, a) = begin(&config(), &promise(), param("workflow.get", r#"{"id": "a/b c", "excludePinnedData": true, "other": 1}"#));
    let r = sent(&a);
    assert!(r.method == Method::Get);
    assert_eq!(url(r), "http://n8n/api/v1/workflows/a%2Fb%20c");
    assert_eq!(query(r), vec![("excludePinnedData".to_string(), "true".to_string())]);
    assert_eq!(header(r, "X-N8N-API-KEY").as_deref(), Some("key"));
    assert_eq!(header(r, "Accept").as_deref(), Some("application/json"));
    assert_eq!(r.timeout_ms, 10_000);
}

#[test]
fn workflow_get_rejects_not_found() {
    let (s, _) = begin(&config(), &promise(), param("workflow.get", r#"{"id": "x"}"#));
    let (_, a) = go(s, Event::Reply(resp(404, r#"{"message": "Not Found"}"#)), 0);
    assert_eq!(finished(&a), ("reject", value(r#"{"code": "not_found", "detail": "Not Found"}"#)));
}

#[test]
fn workflow_get_rejects_invalid_request() {
    let (_, a) = begin(&config(), &promise(), param("workflow.get", r#"{"id": 7}"#));
    assert_eq!(
        finished(&a),
        ("reject", value(r#"{"code": "invalid_request", "detail": "args.id is required and must be a string"}"#))
    );
}

#[test]
fn workflow_get_halts_on_a_rejected_key() {
    let (s, _) = begin(&config(), &promise(), param("workflow.get", r#"{"id": "x"}"#));
    let (_, a) = go(s, Event::Reply(resp(401, "unauthorized")), 0);
    assert_eq!(finished(&a), ("halt", Value::String("unauthorized".to_string())));
}

#[test]
fn workflow_list_rejects_invalid_request_on_a_404() {
    let (s, a) = begin(&config(), &promise(), param("workflow.list", r#"{"limit": 5, "active": false, "tags": null}"#));
    assert_eq!(
        query(sent(&a)),
        vec![("active".to_string(), "false".to_string()), ("limit".to_string(), "5".to_string())]
    );
    let (_, a) = go(s, Event::Reply(resp(404, r#"{"message": "nope"}"#)), 0);
    assert_eq!(finished(&a), ("reject", value(r#"{"code": "invalid_request", "detail": "nope"}"#)));
}

#[test]
fn workflow_update_sends_the_body_without_its_id() {
    let (s, a) = begin(
        &config(),
        &promise(),
        param("workflow.update", r#"{"id": "w1", "publishIfActive": true, "name": "n", "nodes": []}"#),
    );
    let r = sent(&a);
    assert!(r.method == Method::Put);
    assert_eq!(url(r), "http://n8n/api/v1/workflows/w1");
    assert_eq!(query(r), vec![("publishIfActive".to_string(), "true".to_string())]);
    assert_eq!(to_value(r.body.as_ref().unwrap()), value(r#"{"name": "n", "nodes": []}"#));
    let (_, a) = go(s, Event::Reply(resp(409, r#"{"message": "blocked"}"#)), 0);
    assert_eq!(
        finished(&a),
        ("reject", value(r#"{"code": "conflict", "detail": {"message": "blocked"}}"#))
    );
}

#[test]
fn workflow_create_resolves_with_the_workflow() {
    let (s, a) = begin(&config(), &promise(), param("workflow.create", r#"{"name": "w"}"#));
    let r = sent(&a);
    assert!(r.method == Method::Post);
    assert_eq!(url(r), "http://n8n/api/v1/workflows");
    assert_eq!(to_value(r.body.as_ref().unwrap()), value(r#"{"name": "w"}"#));
    let (_, a) = go(s, Event::Reply(resp(200, r#"{"id": "w9"}"#)), 0);
    assert_eq!(finished(&a), ("resolve", Value::String(r#"{"id": "w9"}"#.to_string())));
}

#[test]
fn workflow_unarchive_resolves_on_re_entry() {
    let (s, a) = begin(&config(), &promise(), param("workflow.unarchive", r#"{"id": "w1"}"#));
    assert_eq!(url(sent(&a)), "http://n8n/api/v1/workflows/w1/unarchive");
    let (s, a) = go(s, Event::Reply(resp(400, r#"{"message": "Workflow is not archived."}"#)), 0);
    let r = sent(&a);
    assert!(r.method == Method::Get);
    assert_eq!(url(r), "http://n8n/api/v1/workflows/w1");
    let (_, a) = go(s, Event::Reply(resp(200, r#"{"id": "w1", "isArchived": false}"#)), 0);
    assert_eq!(
        finished(&a),
        ("resolve", Value::String(r#"{"id": "w1", "isArchived": false}"#.to_string()))
    );
}

#[test]
fn workflow_unarchive_rejects_invalid_request() {
    let (s, _) = begin(&config(), &promise(), param("workflow.unarchive", r#"{"id": "w1"}"#));
    let (s, _) = go(s, Event::Reply(resp(400, r#"{"message": "bad"}"#)), 0);
    let (_, a) = go(s, Event::Reply(resp(200, r#"{"isArchived": true}"#)), 0);
    assert_eq!(finished(&a), ("reject", value(r#"{"code": "invalid_request", "detail": "bad"}"#)));
}

#[test]
fn execution_stop_resolves_with_the_stopped_execution() {
    let (s, a) = begin(&config(), &promise(), param("execution.stop", r#"{"id": 12}"#));
    assert_eq!(url(sent(&a)), "http://n8n/api/v1/executions/12/stop");
    let (_, a) = go(
        s,
        Event::Reply(resp(200, r#"{"id": "12", "mode": "manual", "status": "canceled", "finished": false}"#)),
        0,
    );
    assert_eq!(
        resolved_doc(&a),
        value(r#"{"mode": "manual", "status": "canceled", "finished": false}"#)
    );
}

#[test]
fn execution_stop_resolves_when_already_canceled() {
    let (s, _) = begin(&config(), &promise(), param("execution.stop", r#"{"id": "12"}"#));
    let (s, a) = go(s, Event::Reply(resp(500, "cannot stop")), 0);
    assert_eq!(url(sent(&a)), "http://n8n/api/v1/executions/12");
    let (_, a) = go(s, Event::Reply(resp(200, r#"{"status": "canceled", "stoppedAt": "t"}"#)), 0);
    assert_eq!(resolved_doc(&a), value(r#"{"status": "canceled", "stoppedAt": "t"}"#));
}

#[test]
fn execution_stop_rejects_not_stoppable() {
    let (s, _) = begin(&config(), &promise(), param("execution.stop", r#"{"id": "12"}"#));
    let (s, _) = go(s, Event::Reply(resp(500, "cannot stop")), 0);
    let (_, a) = go(s, Event::Reply(resp(200, r#"{"status": "success"}"#)), 0);
    assert_eq!(
        finished(&a),
        ("reject", value(r#"{"code": "not_stoppable", "detail": {"status": "success"}}"#))
    );
}

#[test]
fn execution_stop_releases_a_server_fault() {
    let (s, _) = begin(&config(), &promise(), param("execution.stop", r#"{"id": "12"}"#));
    let (s, _) = go(s, Event::Reply(resp(500, "fault")), 0);
    let (_, a) = go(s, Event::Reply(resp(200, r#"{"status": "running"}"#)), 0);
    assert_eq!(finished(&a), ("release", Value::String("fault".to_string())));
}

#[test]
fn execution_delete_rejects_not_deletable() {
    let (s, a) = begin(&config(), &promise(), param("execution.delete", r#"{"id": "9"}"#));
    assert!(sent(&a).method == Method::Delete);
    let (s, _) = go(s, Event::Reply(resp(400, r#"{"message": "Cannot delete a running execution"}"#)), 0);
    let (_, a) = go(s, Event::Reply(resp(200, r#"{"status": "running"}"#)), 0);
    assert_eq!(
        finished(&a),
        ("reject", value(r#"{"code": "not_deletable", "detail": "Cannot delete a running execution"}"#))
    );
}

#[test]
fn execution_get_sends_the_named_query() {
    let (_, a) = begin(
        &config(),
        &promise(),
        param("execution.get", r#"{"id": 3, "includeData": true, "redactExecutionData": "yes"}"#),
    );
    let r = sent(&a);
    assert_eq!(url(r), "http://n8n/api/v1/executions/3");
    assert_eq!(
        query(r),
        vec![
            ("includeData".to_string(), "true".to_string()),
            ("redactExecutionData".to_string(), "yes".to_string()),
        ]
    );
}

#[test]
fn an_unknown_func_is_rejected() {
    let (_, a) = begin(&config(), &promise(), param("workflow.explode", "{}"));
    assert_eq!(
        finished(&a),
        ("reject", value(r#"{"code": "unknown_func", "detail": "workflow.explode"}"#))
    );
}

#[test]
fn a_param_without_a_func_is_rejected() {
    let (_, a) = begin(&config(), &promise(), Ok(doc(r#"{"args": {}}"#)));
    assert_eq!(
        finished(&a),
        ("reject", value(r#"{"code": "invalid_request", "detail": "param has no func"}"#))
    );
}

#[test]
fn a_param_that_is_not_json_is_rejected() {
    let (_, a) = begin(&config(), &promise(), Err("param: expected value".to_string()));
    assert_eq!(
        finished(&a),
        ("reject", value(r#"{"code": "invalid_request", "detail": "param: expected value"}"#))
    );
}

#[test]
fn a_lost_request_releases_and_a_timeout_says_so() {
    let (s, _) = begin(&config(), &promise(), param("workflow.get", r#"{"id": "x"}"#));
    let (_, a) = go(s, Event::Lost("connection refused".to_string(), false), 0);
    assert_eq!(finished(&a), ("release", Value::String("connection refused".to_string())));
    let (s, _) = begin(&config(), &promise(), param("workflow.get", r#"{"id": "x"}"#));
    let (_, a) = go(s, Event::Lost("operation timed out".to_string(), true), 0);
    assert_eq!(finished(&a), ("release", Value::String("request timed out".to_string())));
}

// ─── execution.retry ────────────────────────────────────────────────────────

/// Through the source read, an empty search of both lists, the retry (whose
/// answer outlives its timeout), the search that finds it, and its poll.
#[test]
fn execution_retry_resolves_when_the_retry_succeeds() {
    let (s, a) = begin(&config(), &promise(), param("execution.retry", r#"{"id": 41}"#));
    assert_eq!(url(sent(&a)), "http://n8n/api/v1/executions/41");

    let (s, a) = go(s, Event::Reply(resp(200, r#"{"id": "41", "workflowId": "wf1"}"#)), 0);
    let r = sent(&a);
    assert_eq!(url(r), "http://n8n/api/v1/executions");
    assert_eq!(
        query(r),
        vec![
            ("workflowId".to_string(), "wf1".to_string()),
            ("limit".to_string(), "250".to_string()),
            ("status".to_string(), "running".to_string()),
        ]
    );

    // A newer execution that is no retry of the source, and no next page.
    let (s, a) = go(s, Event::Reply(resp(200, r#"{"data": [{"id": "45", "retryOf": null}]}"#)), 0);
    assert_eq!(
        query(sent(&a)),
        vec![("workflowId".to_string(), "wf1".to_string()), ("limit".to_string(), "250".to_string())]
    );

    // An older execution ends the search.
    let (s, a) = go(s, Event::Reply(resp(200, r#"{"data": [{"id": 40}], "nextCursor": "c2"}"#)), 0);
    let r = sent(&a);
    assert!(r.method == Method::Post);
    assert_eq!(url(r), "http://n8n/api/v1/executions/41/retry");
    assert_eq!(to_value(r.body.as_ref().unwrap()), value("{}"));

    // The retry's answer outlives the timeout: the loop looks for it.
    let (s, a) = go(s, Event::Lost("timed out".to_string(), true), 100);
    assert_eq!(slept(&a), 5_000);
    let (s, a) = go(s, Event::Woke, 5_100);
    assert_eq!(query(sent(&a))[2], ("status".to_string(), "running".to_string()));
    let (s, a) = go(
        s,
        Event::Reply(resp(200, r#"{"data": [{"id": "46", "retryOf": "41", "status": "running"}]}"#)),
        5_200,
    );
    assert_eq!(slept(&a), 5_000);
    let (s, a) = go(s, Event::Woke, 10_200);
    assert_eq!(url(sent(&a)), "http://n8n/api/v1/executions/46");
    let (_, a) = go(
        s,
        Event::Reply(resp(
            200,
            r#"{"id": "46", "status": "success", "finished": true, "mode": "retry", "retryOf": "41", "workflowId": "wf1", "data": {}}"#,
        )),
        10_300,
    );
    assert_eq!(
        resolved_doc(&a),
        value(r#"{"id": "46", "status": "success", "finished": true, "mode": "retry", "retryOf": "41", "workflowId": "wf1"}"#)
    );
}

#[test]
fn execution_retry_reattaches_on_re_entry() {
    let (s, _) = begin(&config(), &promise(), param("execution.retry", r#"{"id": "41"}"#));
    let (s, _) = go(s, Event::Reply(resp(200, r#"{"workflowId": "wf1"}"#)), 0);
    // The retry an earlier delivery started is found: none is started.
    let (s, a) = go(
        s,
        Event::Reply(resp(200, r#"{"data": [{"id": "47", "retryOf": "41", "status": "error"}]}"#)),
        0,
    );
    let _ = s;
    assert_eq!(
        finished(&a),
        (
            "reject",
            value(r#"{"code": "execution_failed", "detail": {"id": "47", "retryOf": "41", "status": "error"}}"#)
        )
    );
}

#[test]
fn execution_retry_reads_the_next_page() {
    let (s, _) = begin(&config(), &promise(), param("execution.retry", r#"{"id": "41"}"#));
    let (s, _) = go(s, Event::Reply(resp(200, r#"{"workflowId": "wf1"}"#)), 0);
    let (_, a) = go(s, Event::Reply(resp(200, r#"{"data": [], "nextCursor": "abc"}"#)), 0);
    assert_eq!(query(sent(&a))[3], ("cursor".to_string(), "abc".to_string()));
}

#[test]
fn execution_retry_rejects_workflow_changed() {
    let (s, a) = begin(&config(), &promise(), param("execution.retry", r#"{"id": "41", "loadWorkflow": true}"#));
    let _ = a;
    let (s, _) = go(s, Event::Reply(resp(200, r#"{"workflowId": "wf1"}"#)), 0);
    let (s, _) = go(s, Event::Reply(resp(200, r#"{"data": []}"#)), 0);
    let (s, a) = go(s, Event::Reply(resp(200, r#"{"data": []}"#)), 0);
    assert_eq!(to_value(sent(&a).body.as_ref().unwrap()), value(r#"{"loadWorkflow": true}"#));
    let (_, a) = go(s, Event::Reply(resp(500, r#"{"message": "node gone"}"#)), 0);
    assert_eq!(
        finished(&a),
        ("reject", value(r#"{"code": "workflow_changed", "detail": "node gone"}"#))
    );
}

#[test]
fn execution_retry_rejects_not_retryable() {
    let (s, _) = begin(&config(), &promise(), param("execution.retry", r#"{"id": "41"}"#));
    let (s, _) = go(s, Event::Reply(resp(200, r#"{"workflowId": "wf1"}"#)), 0);
    let (s, _) = go(s, Event::Reply(resp(200, r#"{"data": []}"#)), 0);
    let (s, _) = go(s, Event::Reply(resp(200, r#"{"data": []}"#)), 0);
    let (_, a) = go(s, Event::Reply(resp(409, r#"{"message": "succeeded"}"#)), 0);
    assert_eq!(
        finished(&a),
        ("reject", value(r#"{"code": "not_retryable", "detail": "succeeded"}"#))
    );
}

#[test]
fn execution_retry_rejects_not_found() {
    let (s, _) = begin(&config(), &promise(), param("execution.retry", r#"{"id": "41"}"#));
    let (_, a) = go(s, Event::Reply(resp(404, r#"{"message": "missing"}"#)), 0);
    assert_eq!(finished(&a), ("reject", value(r#"{"code": "not_found", "detail": "missing"}"#)));
}

#[test]
fn execution_retry_rejects_deleted() {
    let (s, _) = begin(&config(), &promise(), param("execution.retry", r#"{"id": "41"}"#));
    let (s, _) = go(s, Event::Reply(resp(200, r#"{"workflowId": "wf1"}"#)), 0);
    let (s, _) = go(s, Event::Reply(resp(200, r#"{"data": [{"id": "50", "retryOf": "41", "status": "running"}]}"#)), 0);
    let (s, _) = go(s, Event::Woke, 10);
    let (_, a) = go(s, Event::Reply(resp(404, "gone")), 20);
    assert_eq!(finished(&a), ("reject", value(r#"{"code": "deleted"}"#)));
}

#[test]
fn execution_retry_releases_a_source_without_a_workflow() {
    let (s, _) = begin(&config(), &promise(), param("execution.retry", r#"{"id": "41"}"#));
    let (_, a) = go(s, Event::Reply(resp(200, r#"{"id": "41"}"#)), 0);
    assert_eq!(
        finished(&a),
        ("release", Value::String(r#"execution 41 carries no workflowId: {"id": "41"}"#.to_string()))
    );
}

#[test]
fn execution_retry_releases_an_id_that_is_not_a_number() {
    let (s, _) = begin(&config(), &promise(), param("execution.retry", r#"{"id": "abc"}"#));
    let (_, a) = go(s, Event::Reply(resp(200, r#"{"workflowId": "wf1"}"#)), 0);
    assert_eq!(
        finished(&a),
        (
            "release",
            Value::String(r#"execution id "abc" is not a decimal integer: invalid digit found in string"#.to_string())
        )
    );
}

#[test]
fn execution_retry_releases_a_listed_id_that_is_not_a_number() {
    let (s, _) = begin(&config(), &promise(), param("execution.retry", r#"{"id": "41"}"#));
    let (s, _) = go(s, Event::Reply(resp(200, r#"{"workflowId": "wf1"}"#)), 0);
    let (_, a) = go(s, Event::Reply(resp(200, r#"{"data": [{"id": [1]}]}"#)), 0);
    assert_eq!(
        finished(&a),
        (
            "release",
            Value::String(r#"execution id "[1]" is not a decimal integer: invalid digit found in string"#.to_string())
        )
    );
}

#[test]
fn execution_retry_releases_at_the_deadline() {
    let (s, _) = begin(&config(), &promise(), param("execution.retry", r#"{"id": "41"}"#));
    let (s, _) = go(s, Event::Reply(resp(200, r#"{"workflowId": "wf1"}"#)), 0);
    let (s, _) = go(s, Event::Reply(resp(200, r#"{"data": [{"id": "50", "retryOf": "41", "status": "new"}]}"#)), 0);
    // The sleep never runs past the deadline.
    let (s, a) = go(s, Event::Woke, DEADLINE - 2_000);
    let (s, a2) = go(s, Event::Reply(resp(200, r#"{"id": "50", "status": "running"}"#)), DEADLINE - 1_000);
    let _ = a;
    assert_eq!(slept(&a2), 1_000);
    let (s, _) = go(s, Event::Woke, DEADLINE);
    let (_, a) = go(s, Event::Reply(resp(200, r#"{"id": "50", "status": "running"}"#)), DEADLINE);
    assert_eq!(finished(&a), ("release", Value::String("promise timed out".to_string())));
}

#[test]
fn execution_retry_absorbs_four_failed_polls_and_releases_at_the_fifth() {
    let (s, _) = begin(&config(), &promise(), param("execution.retry", r#"{"id": "41"}"#));
    let (s, _) = go(s, Event::Reply(resp(200, r#"{"workflowId": "wf1"}"#)), 0);
    let (mut s, _) = go(s, Event::Reply(resp(200, r#"{"data": [{"id": "50", "retryOf": "41", "status": "running"}]}"#)), 0);
    for i in 0..4 {
        let (s1, _) = go(s, Event::Woke, 10 * i);
        let (s2, a) = go(s1, Event::Reply(resp(503, "busy")), 10 * i + 1);
        slept(&a);
        s = s2;
    }
    let (s1, _) = go(s, Event::Woke, 100);
    let (_, a) = go(s1, Event::Reply(resp(503, "busy")), 101);
    assert_eq!(finished(&a), ("release", Value::String("busy".to_string())));
}

#[test]
fn execution_retry_halts_on_a_rejected_key_inside_the_loop() {
    let (s, _) = begin(&config(), &promise(), param("execution.retry", r#"{"id": "41"}"#));
    let (s, _) = go(s, Event::Reply(resp(200, r#"{"workflowId": "wf1"}"#)), 0);
    let (s, _) = go(s, Event::Reply(resp(200, r#"{"data": [{"id": "50", "retryOf": "41", "status": "running"}]}"#)), 0);
    let (s, _) = go(s, Event::Woke, 10);
    let (_, a) = go(s, Event::Reply(resp(403, "scopes")), 11);
    assert_eq!(finished(&a), ("halt", Value::String("scopes".to_string())));
}

#[test]
fn a_zero_retry_of_matches_no_source() {
    let (s, _) = begin(&config(), &promise(), param("execution.retry", r#"{"id": "41"}"#));
    let (s, _) = go(s, Event::Reply(resp(200, r#"{"workflowId": "wf1"}"#)), 0);
    // retryOf 0 is falsy and reads as empty; retryOf 41 (a number) matches.
    let (_, a) = go(
        s,
        Event::Reply(resp(200, r#"{"data": [{"id": "60", "retryOf": 0}, {"id": "59", "retryOf": 41, "status": "canceled"}]}"#)),
        0,
    );
    assert_eq!(finished(&a).1["code"], Value::String("execution_canceled".to_string()));
}
