use resonate_plugins::baserow::{begin, step, Config, Stage};
use resonate_plugins::frame::sanitize;
use resonate_plugins::http::{Action, Event, Method, Param, Part, Piece, Request, Response};
use resonate_plugins::json::{Json, Number};
use resonate_plugins::promise::Promise;
use resonate_plugins::text::quote;
use resonate_plugins::verdict::{Payload, Verdict};
use serde_json::Value;

// ─── Plain values to and from JSON text ─────────────────────────────────────

fn from_value(v: &Value) -> Json {
    match v {
        Value::Null => Json::Null,
        Value::Bool(b) => Json::Bool(*b),
        Value::Number(n) => Json::Num(Number {
            text: n.to_string(),
            int: n.as_i64(),
            zero: n.as_f64() == Some(0.0),
        }),
        Value::String(s) => Json::Str(s.clone()),
        Value::Array(a) => Json::Array(a.iter().map(from_value).collect()),
        Value::Object(m) => {
            Json::Object(m.iter().map(|(k, v)| (k.clone(), from_value(v))).collect())
        }
    }
}

fn to_value(j: &Json) -> Value {
    match j {
        Json::Null => Value::Null,
        Json::Bool(b) => Value::Bool(*b),
        Json::Num(n) => serde_json::from_str(&n.text).unwrap(),
        Json::Str(s) => Value::String(s.clone()),
        Json::Array(a) => Value::Array(a.iter().map(to_value).collect()),
        Json::Object(m) => {
            let mut out = serde_json::Map::new();
            for (k, v) in m {
                out.insert(k.clone(), to_value(v));
            }
            Value::Object(out)
        }
    }
}

fn doc(text: &str) -> Json {
    from_value(&serde_json::from_str::<Value>(text).unwrap())
}

fn value(text: &str) -> Value {
    serde_json::from_str(text).unwrap()
}

fn resp(status: u16, text: &str) -> Response {
    Response {
        status,
        text: text.to_string(),
        body: serde_json::from_str::<Value>(text).ok().map(|v| from_value(&v)),
    }
}

fn param(func: &str, args: &str) -> Result<Json, String> {
    Ok(doc(&format!(r#"{{"func": "{func}", "args": {args}}}"#)))
}

fn url(r: &Request) -> String {
    let mut out = String::new();
    for p in &r.url {
        match p {
            Piece::Text(s) => out.push_str(s),
            Piece::Segment(j) => out.push_str(&quote(&to_value(j).to_string())),
        }
    }
    out
}

fn query(r: &Request) -> Vec<(String, String)> {
    r.query
        .iter()
        .map(|(k, p)| {
            let v = match p {
                Param::Text(s) => s.clone(),
                Param::Doc(j) => to_value(j).to_string(),
                Param::Joined(parts) => parts
                    .iter()
                    .map(|x| match x {
                        Part::Text(s) => s.clone(),
                        Part::Doc(j) => to_value(j).to_string(),
                    })
                    .collect::<Vec<_>>()
                    .join(","),
            };
            (k.clone(), v)
        })
        .collect()
}

fn header(r: &Request, k: &str) -> Option<String> {
    r.headers.iter().find(|(n, _)| n == k).map(|(_, v)| v.clone())
}

fn payload(p: &Payload) -> String {
    match p {
        Payload::Text(s) => s.clone(),
        Payload::Doc(j) => to_value(j).to_string(),
        Payload::Note(s, j) => format!("{s}{}", to_value(j)),
        Payload::Quoted(h, part, t) => {
            let inner = match part {
                Part::Text(s) => s.clone(),
                Part::Doc(j) => to_value(j).to_string(),
            };
            format!("{h}{inner:?}{t}")
        }
    }
}

fn sent(a: &Action) -> &Request {
    match a {
        Action::Send(r) => r,
        _ => panic!("expected a request"),
    }
}

fn slept(a: &Action) -> u64 {
    match a {
        Action::Sleep(ms) => *ms,
        _ => panic!("expected a sleep"),
    }
}

/// The verdict a finished delivery ends with: its kind and its text (a
/// rejection as its document).
fn finished(a: &Action) -> (&'static str, Value) {
    match a {
        Action::Finish(Verdict::Resolve(p)) => ("resolve", Value::String(payload(p))),
        Action::Finish(Verdict::Reject(j)) => ("reject", to_value(j)),
        Action::Finish(Verdict::Halt(p)) => ("halt", Value::String(payload(p))),
        Action::Finish(Verdict::Release(p)) => ("release", Value::String(payload(p))),
        _ => panic!("expected a verdict"),
    }
}

fn resolved_doc(a: &Action) -> Value {
    match a {
        Action::Finish(Verdict::Resolve(Payload::Doc(j))) => to_value(j),
        _ => panic!("expected a resolved document"),
    }
}

// ─── Fixtures ───────────────────────────────────────────────────────────────

const DEADLINE: i64 = 1_000_000;

fn config() -> Config {
    Config {
        base_url: "http://br".to_string(),
        email: "e@x".to_string(),
        password: "pw".to_string(),
        poll: 2_000,
        poll_export: Some(700),
        poll_table: None,
    }
}

fn promise() -> Promise {
    Promise { id: "imp 1".to_string(), timeout_at: DEADLINE, param_data: None }
}

fn go(s: Stage, e: Event, now: i64) -> (Stage, Action) {
    step(&config(), &promise(), s, e, now)
}

fn token() -> Event {
    Event::Reply(resp(200, r#"{"access_token": "a1"}"#))
}

#[test]
fn the_export_and_table_cadences_fall_back_to_poll() {
    assert_eq!(config().poll_export(), 700);
    assert_eq!(config().poll_table(), 2_000);
}

#[test]
fn row_get_authenticates_then_reads_the_row() {
    let (s, a) = begin(&config(), param("row.get", r#"{"table_id": 3, "row_id": 9, "user_field_names": true}"#));
    let r = sent(&a);
    assert_eq!(url(r), "http://br/api/user/token-auth/");
    assert_eq!(to_value(r.body.as_ref().unwrap()), value(r#"{"email": "e@x", "password": "pw"}"#));
    let (s, a) = go(s, token(), 0);
    let r = sent(&a);
    assert_eq!(url(r), "http://br/api/database/rows/table/3/9/");
    assert_eq!(header(r, "Authorization").as_deref(), Some("JWT a1"));
    assert_eq!(query(r), vec![("user_field_names".to_string(), "true".to_string())]);
    let (_, a) = go(s, Event::Reply(resp(200, r#"{"id": 9}"#)), 0);
    assert_eq!(finished(&a), ("resolve", Value::String(r#"{"id": 9}"#.to_string())));
}

#[test]
fn row_get_rejects_a_missing_row_id() {
    let (s, _) = begin(&config(), param("row.get", r#"{"table_id": 3}"#));
    let (_, a) = go(s, token(), 0);
    assert_eq!(
        finished(&a),
        ("reject", value(r#"{"code": "invalid_request", "detail": "args.row_id is required and must be an integer"}"#))
    );
}

#[test]
fn rejected_token_credentials_halt() {
    let (s, _) = begin(&config(), param("row.get", r#"{"table_id": 3, "row_id": 9}"#));
    let (_, a) = go(s, Event::Reply(resp(400, r#"{"error": "ERROR_INVALID_CREDENTIALS"}"#)), 0);
    assert_eq!(
        finished(&a),
        ("halt", Value::String(r#"{"error": "ERROR_INVALID_CREDENTIALS"}"#.to_string()))
    );
}

#[test]
fn a_permission_error_halts() {
    let (s, _) = begin(&config(), param("row.get", r#"{"table_id": 3, "row_id": 9}"#));
    let (s, _) = go(s, token(), 0);
    let text = r#"{"error": "ERROR_USER_NOT_IN_GROUP", "detail": "no"}"#;
    let (_, a) = go(s, Event::Reply(resp(400, text)), 0);
    assert_eq!(finished(&a), ("halt", Value::String(text.to_string())));
}

#[test]
fn export_create_resolves_with_the_file() {
    let (s, _) = begin(&config(), param("export.create", r#"{"table_id": 4, "exporter_type": "csv"}"#));
    let (s, a) = go(s, token(), 0);
    let r = sent(&a);
    assert!(r.method == Method::Post);
    assert_eq!(url(r), "http://br/api/database/export/table/4/");
    assert_eq!(to_value(r.body.as_ref().unwrap()), value(r#"{"exporter_type": "csv"}"#));
    let (s, a) = go(s, Event::Reply(resp(200, r#"{"id": 12, "state": "pending"}"#)), 100);
    assert_eq!(slept(&a), 700);
    let (s, a) = go(s, Event::Woke, 800);
    assert_eq!(url(sent(&a)), "http://br/api/database/export/12/");
    let (_, a) = go(
        s,
        Event::Reply(resp(200, r#"{"id": 12, "state": "finished", "url": "http://f/x.csv", "other": 1}"#)),
        900,
    );
    let v = resolved_doc(&a);
    assert_eq!(v["url"], "http://f/x.csv");
    assert_eq!(v["state"], "finished");
    assert_eq!(v["view"], Value::Null);
    assert!(v.get("other").is_none());
}

#[test]
fn export_create_reauthenticates_when_the_token_expires() {
    let (s, _) = begin(&config(), param("export.create", r#"{"table_id": 4}"#));
    let (s, _) = go(s, token(), 0);
    let (s, _) = go(s, Event::Reply(resp(200, r#"{"id": 12, "state": "exporting"}"#)), 0);
    let (s, _) = go(s, Event::Woke, 700);
    let (s, a) = go(s, Event::Reply(resp(401, "expired")), 701);
    assert_eq!(url(sent(&a)), "http://br/api/user/token-auth/");
    let (s, a) = go(s, Event::Reply(resp(200, r#"{"access_token": "a2"}"#)), 702);
    slept(&a);
    let (_, a) = go(s, Event::Woke, 1_400);
    assert_eq!(header(sent(&a), "Authorization").as_deref(), Some("JWT a2"));
}

#[test]
fn export_create_rejects_expired() {
    let (s, _) = begin(&config(), param("export.create", r#"{"table_id": 4}"#));
    let (s, _) = go(s, token(), 0);
    let (_, a) = go(s, Event::Reply(resp(200, r#"{"id": 12, "state": "expired"}"#)), 0);
    assert_eq!(
        finished(&a),
        ("reject", value(r#"{"code": "expired", "detail": {"id": 12, "state": "expired"}}"#))
    );
}

#[test]
fn export_create_releases_a_job_without_an_id() {
    let (s, _) = begin(&config(), param("export.create", r#"{"table_id": 4}"#));
    let (s, _) = go(s, token(), 0);
    let (_, a) = go(s, Event::Reply(resp(200, r#"{"state": "pending"}"#)), 0);
    assert_eq!(
        finished(&a),
        ("release", Value::String(r#"export job has no id: {"state": "pending"}"#.to_string()))
    );
}

#[test]
fn export_polls_absorb_four_failures_and_release_at_the_fifth() {
    let (s, _) = begin(&config(), param("export.create", r#"{"table_id": 4}"#));
    let (s, _) = go(s, token(), 0);
    let (mut s, _) = go(s, Event::Reply(resp(200, r#"{"id": 12, "state": "pending"}"#)), 0);
    for i in 0..4 {
        let (s1, _) = go(s, Event::Woke, i);
        let (s2, a) = go(s1, Event::Reply(resp(502, "gateway")), i);
        slept(&a);
        s = s2;
    }
    let (s1, _) = go(s, Event::Woke, 10);
    let (_, a) = go(s1, Event::Reply(resp(502, "gateway")), 10);
    assert_eq!(finished(&a), ("release", Value::String("gateway".to_string())));
}

#[test]
fn table_import_finds_the_job_an_earlier_delivery_started() {
    let stamp = sanitize("imp 1");
    let (s, _) = begin(&config(), param("table.import", r#"{"table_id": 5, "data": [["a"]]}"#));
    let (s, a) = go(s, token(), 0);
    let r = sent(&a);
    assert_eq!(url(r), "http://br/api/jobs/");
    assert_eq!(
        query(r),
        vec![
            ("type".to_string(), "file_import".to_string()),
            ("limit".to_string(), "100".to_string()),
            ("offset".to_string(), "0".to_string()),
        ]
    );
    let text = format!(r#"{{"jobs": [{{"id": 8, "state": "finished", "original_file_name": "{stamp}"}}]}}"#);
    let (_, a) = go(s, Event::Reply(resp(200, &text)), 0);
    let v = resolved_doc(&a);
    assert_eq!(v["id"], 8);
    assert_eq!(v["original_file_name"], Value::String(stamp));
}

#[test]
fn table_import_starts_a_stamped_import() {
    let stamp = sanitize("imp 1");
    let (s, _) = begin(&config(), param("table.import", r#"{"table_id": 5, "data": [["a"]], "importer_type": "x"}"#));
    let (s, _) = go(s, token(), 0);
    let (s, a) = go(s, Event::Reply(resp(200, r#"{"jobs": []}"#)), 0);
    let r = sent(&a);
    assert_eq!(url(r), "http://br/api/database/tables/5/import/async/");
    let body = to_value(r.body.as_ref().unwrap());
    assert_eq!(body["original_file_name"], Value::String(stamp));
    assert_eq!(body["data"], value(r#"[["a"]]"#));
    assert_eq!(body["importer_type"], "x");
    let (s, a) = go(s, Event::Reply(resp(200, r#"{"id": 30, "state": "pending"}"#)), 0);
    assert_eq!(slept(&a), 2_000);
    let (s, a) = go(s, Event::Woke, 2_000);
    assert_eq!(url(sent(&a)), "http://br/api/jobs/30/");
    let (_, a) = go(s, Event::Reply(resp(200, r#"{"id": 30, "state": "failed"}"#)), 2_001);
    assert_eq!(finished(&a).1["code"], Value::String("import_failed".to_string()));
}

#[test]
fn table_import_rejects_data_that_is_not_an_array() {
    let (s, _) = begin(&config(), param("table.import", r#"{"table_id": 5, "data": "x"}"#));
    let (_, a) = go(s, token(), 0);
    assert_eq!(
        finished(&a),
        ("reject", value(r#"{"code": "invalid_request", "detail": "args.data is required and must be an array"}"#))
    );
}
