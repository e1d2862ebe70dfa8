use resonate_plugins::json::Json;
use resonate_plugins::worker::{
    acquire, beat, conclude, corr_id, corr_id_of, fulfill_encoded, heartbeat, run_start, run_step, Envelope, Run,
    RunAction, RunEvent, RunStage, Settled,
};
use serde_json::Value;

fn to_value(j: &Json) -> Value {
    match j {
        Json::Null => Value::Null,
        Json::Bool(b) => Value::Bool(*b),
        Json::Num(n) => serde_json::from_str(&n.text).unwrap(),
        Json::Str(s) => Value::String(s.clone()),
        Json::Array(a) => Value::Array(a.iter().map(to_value).collect()),
        Json::Object(m) => {
            let mut out = serde_json::Map::new();
            for (k, v) in m {
                out.insert(k.clone(), to_value(v));
            }
            Value::Object(out)
        }
    }
}

fn value(text: &str) -> Value {
    serde_json::from_str(text).unwrap()
}

fn called(a: &RunAction) -> &Envelope {
    match a {
        RunAction::Call(e) => e,
        _ => panic!("expected a server call"),
    }
}

fn run() -> Run {
    Run { task_id: "t-1".to_string(), task_version: 3, lease: 30_000 }
}

#[test]
fn acquire_asks_for_the_task_under_this_frame() {
    let e = acquire("t-1", 3, 30_000);
    assert_eq!(e.kind, "task.acquire");
    assert_eq!(
        to_value(&e.data),
        value(r#"{"id": "t-1", "version": 3, "pid": "self", "ttl": 30000}"#)
    );
}

#[test]
fn heartbeat_names_the_held_task() {
    let e = heartbeat("t-1", 4);
    assert_eq!(e.kind, "task.heartbeat");
    assert_eq!(
        to_value(&e.data),
        value(r#"{"pid": "self", "tasks": [{"id": "t-1", "version": 4}]}"#)
    );
}

#[test]
fn the_lease_is_beaten_three_times_over() {
    assert_eq!(beat(30_000), 10_000);
    assert_eq!(beat(3), 1);
    assert_eq!(beat(2), 1);
    assert_eq!(beat(-9), 1);
}

#[test]
fn a_resolve_settles_the_promise_with_the_text_in_base64() {
    let e = conclude("t-1", 4, &Settled::Resolve("{}".to_string()));
    assert_eq!(e.kind, "task.fulfill");
    assert_eq!(
        to_value(&e.data),
        value(
            r#"{"id": "t-1", "version": 4, "action": {"kind": "promise.settle", "head": {},
                "data": {"id": "t-1", "state": "resolved",
                         "value": {"headers": {"content-type": "application/json"}, "data": "e30="}}}}"#
        )
    );
}

#[test]
fn a_reject_settles_the_promise_rejected() {
    let e = conclude("t-1", 4, &Settled::Reject(r#"{"code":"x"}"#.to_string()));
    let v = to_value(&e.data);
    assert_eq!(v["action"]["data"]["state"], "rejected");
    assert_eq!(v["action"]["data"]["value"]["data"], "eyJjb2RlIjoieCJ9");
}

#[test]
fn a_halt_and_a_release_hand_the_task_back() {
    let h = conclude("t-1", 4, &Settled::Halt("key".to_string()));
    assert_eq!(h.kind, "task.halt");
    assert_eq!(to_value(&h.data), value(r#"{"id": "t-1", "version": 4}"#));
    let r = conclude("t-1", 4, &Settled::Release("busy".to_string()));
    assert_eq!(r.kind, "task.release");
    assert_eq!(to_value(&r.data), value(r#"{"id": "t-1", "version": 4}"#));
}

#[test]
fn a_run_acquires_works_and_concludes_at_the_acquired_version() {
    let (s, a) = run_start(&run());
    assert_eq!(called(&a).kind, "task.acquire");
    let (s, a) = run_step(&run(), s, RunEvent::Acquired { status: 200, version: Some(5) });
    assert!(s == RunStage::Working { version: 5 });
    match &a {
        RunAction::Work { period, beat } => {
            assert_eq!(*period, 10_000);
            assert_eq!(to_value(&beat.data)["tasks"][0]["version"], 5);
        }
        _ => panic!("expected work"),
    }
    let (s, a) = run_step(&run(), s, RunEvent::Decided(Settled::Resolve("1".to_string())));
    assert_eq!(to_value(&called(&a).data)["version"], 5);
    let (s, a) = run_step(&run(), s, RunEvent::Answered);
    assert!(s == RunStage::Done);
    assert!(matches!(a, RunAction::Stop));
}

#[test]
fn a_task_not_acquired_is_left_alone() {
    let (s, _) = run_start(&run());
    let (s2, a) = run_step(&run(), s, RunEvent::Acquired { status: 409, version: Some(5) });
    assert!(s2 == RunStage::Done);
    assert!(matches!(a, RunAction::Stop));
    let (s, _) = run_start(&run());
    let (_, a) = run_step(&run(), s, RunEvent::Acquired { status: 200, version: None });
    assert!(matches!(a, RunAction::Stop));
    let (s, _) = run_start(&run());
    let (_, a) = run_step(&run(), s, RunEvent::Failed);
    assert!(matches!(a, RunAction::Stop));
}

#[test]
fn correlation_ids_are_numbered() {
    assert_eq!(corr_id_of(42), "plugin-42");
    let c = corr_id();
    assert!(c.starts_with("plugin-"));
    assert!(c["plugin-".len()..].parse::<u64>().is_ok());
}

#[test]
fn a_fulfill_carries_the_encoded_value_as_given() {
    let e = fulfill_encoded("t", 1, "resolved", "QUJD".to_string());
    assert_eq!(e.kind, "task.fulfill");
    let v = to_value(&e.data);
    assert_eq!(v["action"]["data"]["value"]["data"], "QUJD");
    assert_eq!(v["action"]["data"]["state"], "resolved");
    assert_eq!(v["action"]["data"]["id"], "t");
}
