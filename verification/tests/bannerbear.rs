use resonate_plugins::bannerbear::{api_root, begin, poll_default, step, Config, Stage};
use resonate_plugins::http::{Action, Event, Method, Param, Part, Piece, Request, Response};
use resonate_plugins::json::{Json, Number};
use resonate_plugins::promise::Promise;
use resonate_plugins::text::quote;
use resonate_plugins::frame::sanitize;
use resonate_plugins::verdict::{Payload, Verdict};
use serde_json::Value;

// ─── Plain values to and from JSON text ─────────────────────────────────────

fn from_value(v: &Value) -> Json {
    match v {
        Value::Null => Json::Null,
        Value::Bool(b) => Json::Bool(*b),
        Value::Number(n) => Json::Num(Number {
            text: n.to_string(),
            int: n.as_i64(),
            zero: n.as_f64() == Some(0.0),
        }),
        Value::String(s) => Json::Str(s.clone()),
        Value::Array(a) => Json::Array(a.iter().map(from_value).collect()),
        Value::Object(m) => {
            Json::Object(m.iter().map(|(k, v)| (k.clone(), from_value(v))).collect())
        }
    }
}

fn to_value(j: &Json) -> Value {
    match j {
        Json::Null => Value::Null,
        Json::Bool(b) => Value::Bool(*b),
        Json::Num(n) => serde_json::from_str(&n.text).unwrap(),
        Json::Str(s) => Value::String(s.clone()),
        Json::Array(a) => Value::Array(a.iter().map(to_value).collect()),
        Json::Object(m) => {
            let mut out = serde_json::Map::new();
            for (k, v) in m {
                out.insert(k.clone(), to_value(v));
            }
            Value::Object(out)
        }
    }
}

fn doc(text: &str) -> Json {
    from_value(&serde_json::from_str::<Value>(text).unwrap())
}

fn value(text: &str) -> Value {
    serde_json::from_str(text).unwrap()
}

fn resp(status: u16, text: &str) -> Response {
    Response {
        status,
        text: text.to_string(),
        body: serde_json::from_str::<Value>(text).ok().map(|v| from_value(&v)),
    }
}

fn param(func: &str, args: &str) -> Result<Json, String> {
    Ok(doc(&format!(r#"{{"func": "{func}", "args": {args}}}"#)))
}

fn url(r: &Request) -> String {
    let mut out = String::new();
    for p in &r.url {
        match p {
            Piece::Text(s) => out.push_str(s),
            Piece::Segment(j) => out.push_str(&quote(&to_value(j).to_string())),
        }
    }
    out
}

fn query(r: &Request) -> Vec<(String, String)> {
    r.query
        .iter()
        .map(|(k, p)| {
            let v = match p {
                Param::Text(s) => s.clone(),
                Param::Doc(j) => to_value(j).to_string(),
                Param::Joined(parts) => parts
                    .iter()
                    .map(|x| match x {
                        Part::Text(s) => s.clone(),
                        Part::Doc(j) => to_value(j).to_string(),
                    })
                    .collect::<Vec<_>>()
                    .join(","),
            };
            (k.clone(), v)
        })
        .collect()
}

fn header(r: &Request, k: &str) -> Option<String> {
    r.headers.iter().find(|(n, _)| n == k).map(|(_, v)| v.clone())
}

fn payload(p: &Payload) -> String {
    match p {
        Payload::Text(s) => s.clone(),
        Payload::Doc(j) => to_value(j).to_string(),
        Payload::Note(s, j) => format!("{s}{}", to_value(j)),
        Payload::Quoted(h, part, t) => {
            let inner = match part {
                Part::Text(s) => s.clone(),
                Part::Doc(j) => to_value(j).to_string(),
            };
            format!("{h}{inner:?}{t}")
        }
    }
}

fn sent(a: &Action) -> &Request {
    match a {
        Action::Send(r) => r,
        _ => panic!("expected a request"),
    }
}

fn slept(a: &Action) -> u64 {
    match a {
        Action::Sleep(ms) => *ms,
        _ => panic!("expected a sleep"),
    }
}

/// The verdict a finished delivery ends with: its kind and its text (a
/// rejection as its document).
fn finished(a: &Action) -> (&'static str, Value) {
    match a {
        Action::Finish(Verdict::Resolve(p)) => ("resolve", Value::String(payload(p))),
        Action::Finish(Verdict::Reject(j)) => ("reject", to_value(j)),
        Action::Finish(Verdict::Halt(p)) => ("halt", Value::String(payload(p))),
        Action::Finish(Verdict::Release(p)) => ("release", Value::String(payload(p))),
        _ => panic!("expected a verdict"),
    }
}

fn resolved_doc(a: &Action) -> Value {
    match a {
        Action::Finish(Verdict::Resolve(Payload::Doc(j))) => to_value(j),
        _ => panic!("expected a resolved document"),
    }
}

// ─── Fixtures ───────────────────────────────────────────────────────────────

const API: &str = "http://bb/v5";
const DEADLINE: i64 = 1_000_000;

fn config() -> Config {
    Config { api_key: "k".to_string(), poll: 2_000, poll_image: Some(500), poll_animation: None }
}

fn promise() -> Promise {
    Promise { id: "render/1".to_string(), timeout_at: DEADLINE, param_data: None }
}

fn go(s: Stage, e: Event, now: i64) -> (Stage, Action) {
    step(&config(), API, &promise(), s, e, now)
}

#[test]
fn the_api_root_defaults_to_the_service() {
    assert_eq!(api_root(None), "https://api.bannerbear.com/v5");
    assert_eq!(api_root(Some("http://mock".to_string())), "http://mock");
    assert_eq!(poll_default(), 2_000);
}

#[test]
fn the_cadences_fall_back_to_poll() {
    assert_eq!(config().poll_image(), 500);
    assert_eq!(config().poll_animation(), 2_000);
}

#[test]
fn image_create_resolves_with_the_files() {
    let (s, a) = begin(&config(), API, &promise(), param("image.create", r#"{"template": "t1", "modifications": {}}"#));
    let r = sent(&a);
    assert!(r.method == Method::Post);
    assert_eq!(url(r), "http://bb/v5/images");
    assert_eq!(header(r, "Authorization").as_deref(), Some("Bearer k"));
    let body = to_value(r.body.as_ref().unwrap());
    assert_eq!(body["metadata"], Value::String(sanitize("render/1")));
    assert_eq!(body["template"], "t1");
    let (s, a) = go(s, Event::Reply(resp(202, r#"{"uid": "u/1", "status": "pending"}"#)), 0);
    assert_eq!(slept(&a), 500);
    let (s, a) = go(s, Event::Woke, 500);
    assert_eq!(url(sent(&a)), "http://bb/v5/images/u%2F1");
    let (_, a) = go(
        s,
        Event::Reply(resp(200, r#"{"uid": "u/1", "status": "completed", "files": ["a.png"]}"#)),
        600,
    );
    assert_eq!(finished(&a), ("resolve", Value::String(r#"{"files":["a.png"]}"#.to_string())));
}

#[test]
fn image_create_rejects_render_failed() {
    let (s, _) = begin(&config(), API, &promise(), param("image.create", r#"{"template": "t1", "modifications": {}}"#));
    let (_, a) = go(s, Event::Reply(resp(200, r#"{"uid": "u", "status": "failed"}"#)), 0);
    assert_eq!(
        finished(&a),
        ("reject", value(r#"{"code": "render_failed", "detail": {"uid": "u", "status": "failed"}}"#))
    );
}

#[test]
fn image_create_rejects_invalid_request() {
    let (_, a) = begin(&config(), API, &promise(), param("image.create", r#"{"template": "t1"}"#));
    assert_eq!(
        finished(&a),
        (
            "reject",
            value(r#"{"code": "invalid_request", "detail": "args.modifications is required and must be an object"}"#)
        )
    );
    let (s, _) = begin(&config(), API, &promise(), param("image.create", r#"{"template": "t1", "modifications": {}}"#));
    let (_, a) = go(s, Event::Reply(resp(422, r#"{"message": "bad layer"}"#)), 0);
    assert_eq!(
        finished(&a),
        ("reject", value(r#"{"code": "invalid_request", "detail": {"message": "bad layer"}}"#))
    );
}

#[test]
fn image_create_halts_when_the_quota_is_spent() {
    let (s, _) = begin(&config(), API, &promise(), param("image.create", r#"{"template": "t1", "modifications": {}}"#));
    let (_, a) = go(s, Event::Reply(resp(402, "quota")), 0);
    assert_eq!(finished(&a), ("halt", Value::String("quota".to_string())));
}

#[test]
fn a_poll_absorbs_four_failures_and_releases_at_the_fifth() {
    let (s, _) = begin(&config(), API, &promise(), param("image.create", r#"{"template": "t1", "modifications": {}}"#));
    let (mut s, _) = go(s, Event::Reply(resp(202, r#"{"uid": "u", "status": "pending"}"#)), 0);
    for i in 0..4 {
        let (s1, _) = go(s, Event::Woke, i);
        let (s2, a) = go(s1, Event::Lost("reset".to_string(), false), i);
        slept(&a);
        s = s2;
    }
    let (s1, _) = go(s, Event::Woke, 10);
    let (_, a) = go(s1, Event::Lost("reset".to_string(), false), 10);
    assert_eq!(finished(&a), ("release", Value::String("reset".to_string())));
}

#[test]
fn a_success_between_failures_clears_the_count() {
    let (s, _) = begin(&config(), API, &promise(), param("image.create", r#"{"template": "t1", "modifications": {}}"#));
    let (mut s, _) = go(s, Event::Reply(resp(202, r#"{"uid": "u", "status": "pending"}"#)), 0);
    for i in 0..4 {
        let (s1, _) = go(s, Event::Woke, i);
        let (s2, _) = go(s1, Event::Reply(resp(500, "x")), i);
        s = s2;
    }
    let (s1, _) = go(s, Event::Woke, 10);
    let (s2, a) = go(s1, Event::Reply(resp(200, r#"{"uid": "u", "status": "pending"}"#)), 10);
    slept(&a);
    let (s3, _) = go(s2, Event::Woke, 11);
    let (_, a) = go(s3, Event::Reply(resp(500, "x")), 11);
    slept(&a);
}

#[test]
fn a_render_halts_when_the_key_is_revoked_mid_poll() {
    let (s, _) = begin(&config(), API, &promise(), param("image.create", r#"{"template": "t1", "modifications": {}}"#));
    let (s, _) = go(s, Event::Reply(resp(202, r#"{"uid": "u", "status": "pending"}"#)), 0);
    let (s, _) = go(s, Event::Woke, 1);
    let (_, a) = go(s, Event::Reply(resp(401, "revoked")), 2);
    assert_eq!(finished(&a), ("halt", Value::String("revoked".to_string())));
}

#[test]
fn animation_create_rejects_with_its_error() {
    let (s, a) = begin(&config(), API, &promise(), param("animation.create", r#"{"template": "t", "modifications": []}"#));
    let _ = s;
    assert_eq!(
        finished(&a),
        (
            "reject",
            value(r#"{"code": "invalid_request", "detail": "args.modifications is required and must be an object"}"#)
        )
    );
    let (s, a) = begin(&config(), API, &promise(), param("animation.create", r#"{"template": "t", "modifications": {}}"#));
    assert_eq!(url(sent(&a)), "http://bb/v5/animations");
    let (s, a) = go(s, Event::Reply(resp(202, r#"{"uid": "v", "status": "queued"}"#)), 0);
    assert_eq!(slept(&a), 2_000);
    let (s, _) = go(s, Event::Woke, 2_000);
    let (s, a) = go(s, Event::Reply(resp(200, r#"{"uid": "v", "status": "rendering"}"#)), 2_001);
    slept(&a);
    let (s, _) = go(s, Event::Woke, 4_001);
    let (_, a) = go(s, Event::Reply(resp(200, r#"{"uid": "v", "status": "failed", "error": "boom"}"#)), 4_002);
    assert_eq!(finished(&a), ("reject", value(r#"{"code": "render_failed", "detail": "boom"}"#)));
}

#[test]
fn a_render_releases_at_the_deadline() {
    let (s, _) = begin(&config(), API, &promise(), param("image.create", r#"{"template": "t1", "modifications": {}}"#));
    let (_, a) = go(s, Event::Reply(resp(202, r#"{"uid": "u", "status": "pending"}"#)), DEADLINE);
    assert_eq!(finished(&a), ("release", Value::String("promise timed out".to_string())));
}

#[test]
fn template_get_rejects_not_found() {
    let (s, a) = begin(&config(), API, &promise(), param("template.get", r#"{"uid": "a b"}"#));
    assert_eq!(url(sent(&a)), "http://bb/v5/image_templates/a%20b");
    let (_, a) = go(s, Event::Reply(resp(404, "{}")), 0);
    assert_eq!(finished(&a), ("reject", value(r#"{"code": "not_found"}"#)));
}

#[test]
fn template_list_sends_every_arg_as_query() {
    let (s, a) = begin(&config(), API, &promise(), param("template.list", r#"{"page": 2, "tag": ["a", null, "b"], "x": null}"#));
    assert_eq!(
        query(sent(&a)),
        vec![
            ("page".to_string(), "2".to_string()),
            ("tag".to_string(), "a".to_string()),
            ("tag".to_string(), "b".to_string()),
        ]
    );
    let (_, a) = go(s, Event::Reply(resp(400, r#"{"message": "bad"}"#)), 0);
    assert_eq!(
        finished(&a),
        ("reject", value(r#"{"code": "invalid_request", "detail": {"message": "bad"}}"#))
    );
}
