use app_launcher::json::{JsonNumber, JsonValue};
use app_launcher::logger::SampleDecision;
use app_launcher::state::{Device, Setting};
use app_launcher::{Action, Executor, PowerLogger, Preparer, StabilityMonitor, State, StateManager};

fn to_json(v: &serde_json::Value) -> JsonValue {
    match v {
        serde_json::Value::Null => JsonValue::Null,
        serde_json::Value::Bool(b) => JsonValue::Bool(*b),
        serde_json::Value::Number(n) => {
            if let Some(u) = n.as_u64() {
                JsonValue::Number(JsonNumber::PosInt(u))
            } else if let Some(i) = n.as_i64() {
                JsonValue::Number(JsonNumber::NegInt(i))
            } else {
                JsonValue::Number(JsonNumber::Float(n.as_f64().unwrap().to_bits()))
            }
        }
        serde_json::Value::String(s) => JsonValue::String(s.clone()),
        serde_json::Value::Array(a) => JsonValue::Array(a.iter().map(to_json).collect()),
        serde_json::Value::Object(o) => {
            JsonValue::Object(o.iter().map(|(k, v)| (k.clone(), to_json(v))).collect())
        }
    }
}

fn parse(text: &str) -> JsonValue {
    let v: serde_json::Value = serde_json::from_str(text).unwrap();
    to_json(&v)
}


const POL: &str = r#"
        {
            "hint": "POL",
            "action": [
                {
                    "GPU_Freq": 585,
                    "Time": 5
                },
                {
                    "GPU_Freq": 675,
                    "Time": 5
                },
                {
                    "GPU_Freq": 765,
                    "Time":0
                }
            ]
        }
        "#;

#[test]
fn test_action_generation_1() {
    let raw = POL;
    let v = parse(raw);
    let a = Action::from_json(&v);
    assert_eq!(a.hint, "POL".to_string());
    assert_eq!(a.hint(), "POL");
    assert!(
        *a.tune_set()
            == vec![
                State::new(None, Some(585), None, Some(5)),
                State::new(None, Some(675), None, Some(5)),
                State::new(None, Some(765), None, Some(0)),
            ]
    );
}

#[test]
fn execute_test_display() {
    let raw = POL;
    let v = parse(raw);
    let a = Action::from_json(&v);
    let s = a.to_display_string();
    assert_eq!("(hint: POL, action_set: [State{GPU_Freq: 585MHz,Lasting_time: 5ms,}, State{GPU_Freq: 675MHz,Lasting_time: 5ms,}, State{GPU_Freq: 765MHz,Lasting_time: 0ns,}])"
        , s);
}

#[test]
fn display_of_action_without_states() {
    let a = Action::from_json(&parse(r#"{"hint": "x", "action": []}"#));
    assert_eq!(a.to_display_string(), "(hint: x, action_set: [])");
}

#[test]
fn act_goes_through_every_state() {
    let a = Action::from_json(&parse(POL));
    let mut m = StateManager::new(State::new(Some(1000), Some(390), Some(40), None));
    let steps = a.act(&mut m);
    assert_eq!(steps.len(), 3);
    assert!(steps[0].settings == vec![Setting { device: Device::Gpu, value: 585 }]);
    assert_eq!(steps[0].sleep_ms, 5);
    assert!(steps[2].settings == vec![Setting { device: Device::Gpu, value: 765 }]);
    assert_eq!(steps[2].sleep_ms, 0);
    assert!(m.current_state() == State::new(Some(1000), Some(765), Some(40), None));
}

#[test]
fn act_in_two_parts_is_act_at_once() {
    let whole = Action::from_json(&parse(
        r#"{"hint": "h", "action": [{"CPU_Freq": 1}, {"Fan_Speed": 2}, {"CPU_Freq": 3, "GPU_Freq": 4}]}"#,
    ));
    let first = Action::from_json(&parse(r#"{"hint": "h", "action": [{"CPU_Freq": 1}]}"#));
    let rest = Action::from_json(&parse(
        r#"{"hint": "h", "action": [{"Fan_Speed": 2}, {"CPU_Freq": 3, "GPU_Freq": 4}]}"#,
    ));
    let start = State::new(Some(9), Some(9), Some(9), None);
    let mut m1 = StateManager::new(start);
    whole.act(&mut m1);
    let mut m2 = StateManager::new(start);
    first.act(&mut m2);
    rest.act(&mut m2);
    assert!(m1.current_state() == m2.current_state());
    assert!(m1.current_state() == State::new(Some(3), Some(4), Some(2), None));
}

#[test]
fn invalid_action_documents() {
    assert!(!Action::is_valid_json(&parse(r#"{"action": []}"#)));
    assert!(!Action::is_valid_json(&parse(r#"{"hint": 3, "action": []}"#)));
    assert!(!Action::is_valid_json(&parse(r#"{"hint": "a", "action": {}}"#)));
    assert!(!Action::is_valid_json(&parse(r#"{"hint": "a", "action": [{"Time": -1}]}"#)));
    assert!(!Action::is_valid_json(&parse(r#""hint""#)));
    assert!(Action::is_valid_json(&parse(POL)));
    assert!(!Executor::is_valid_action_set(&parse(POL)));
    assert!(Executor::is_valid_action_set(&parse(&format!("[{}]", POL))));
    assert!(Executor::is_valid_action_set(&parse("[]")));
    assert!(!Executor::is_valid_action_set(&parse(r#"[{"hint": "a"}]"#)));
}

fn two_actions() -> Executor {
    let strategy = parse(
        r#"[{"hint": "START", "action": [{"CPU_Freq": 1200, "Time": 10}]},
            {"hint": "END", "action": [{"CPU_Freq": 800}, {"Fan_Speed": 30}]}]"#,
    );
    Executor::new(
        "./app".to_string(),
        &strategy,
        StateManager::new(State::new(Some(1000), Some(390), Some(40), None)),
    )
}

#[test]
fn executor_fires_actions_in_order() {
    let mut e = two_actions();
    assert_eq!(e.executable_file(), "./app");
    assert_eq!(e.notice_index(), 0);
    assert!(e.on_output("booting\n").is_none());
    assert!(e.on_output("the END is near\n").is_none());
    let steps = e.on_output("START\n").unwrap();
    assert_eq!(steps.len(), 1);
    assert!(steps[0].settings == vec![Setting { device: Device::Cpu, value: 1200 }]);
    assert_eq!(steps[0].sleep_ms, 10);
    assert_eq!(e.notice_index(), 1);
    assert!(e.state_manager().current_state() == State::new(Some(1200), Some(390), Some(40), None));
    let steps = e.on_output("running\n").unwrap();
    assert_eq!(steps.len(), 2);
    assert!(steps[1].settings == vec![Setting { device: Device::Fan, value: 30 }]);
    assert_eq!(e.notice_index(), 2);
    assert!(e.state_manager().current_state() == State::new(Some(800), Some(390), Some(30), None));
    assert!(e.on_output("START END\n").is_none());
    assert_eq!(e.notice_index(), 2);
}

#[test]
fn executor_matches_hint_across_pieces() {
    let mut e = two_actions();
    assert!(e.on_output("ST").is_none());
    assert!(e.on_output("ART").is_some());
    assert_eq!(e.notice_index(), 1);
}

#[test]
fn executor_fires_one_action_per_piece() {
    let mut e = two_actions();
    let steps = e.on_output("START END\n").unwrap();
    assert_eq!(steps.len(), 1);
    assert_eq!(e.notice_index(), 1);
    assert!(e.on_output("").is_some());
    assert_eq!(e.notice_index(), 2);
}

#[test]
fn executor_without_actions_never_fires() {
    let mut e = Executor::new(
        "x".to_string(),
        &parse("[]"),
        StateManager::new(State::new(None, None, None, None)),
    );
    assert!(e.on_output("anything").is_none());
    assert_eq!(e.notice_index(), 0);
}

#[test]
fn preparer_blows_then_restores() {
    let m = StateManager::new(State::new(Some(1000), Some(390), Some(40), Some(7)));
    let p = Preparer::new(&m, Some(10000));
    let plan = p.fiercely_blowing();
    assert!(plan.boost == Setting { device: Device::Fan, value: 100 });
    assert_eq!(plan.sleep_ms, 10000);
    assert!(
        plan.restore
            == vec![
                Setting { device: Device::Cpu, value: 1000 },
                Setting { device: Device::Gpu, value: 390 },
                Setting { device: Device::Fan, value: 40 }
            ]
    );
    assert_eq!(p.blowing_time(), Some(10000));
    let q = Preparer::new(&m, None);
    assert_eq!(q.blowing_time(), None);
    assert_eq!(q.fiercely_blowing().sleep_ms, 30);
}

#[test]
fn stability_needs_a_full_window() {
    let mut w = StabilityMonitor::new(500);
    for _ in 0..9 {
        assert!(!w.push_reading(500));
    }
    assert_eq!(w.len(), 10);
    assert!(w.push_reading(500));
}

#[test]
fn stability_threshold_is_inclusive() {
    let mut w = StabilityMonitor::new(485);
    w.push_reading(470);
    for _ in 0..8 {
        w.push_reading(485);
    }
    assert!(w.push_reading(500));
    let mut v = StabilityMonitor::new(485);
    v.push_reading(469);
    for _ in 0..8 {
        v.push_reading(485);
    }
    assert!(!v.push_reading(500));
}

#[test]
fn stability_forgets_old_readings() {
    let mut w = StabilityMonitor::new(100);
    w.push_reading(900);
    for _ in 0..8 {
        assert!(!w.push_reading(500));
    }
    // window now holds 900 and nine 500s
    assert!(!w.push_reading(500));
    // 900 has left the window
    assert!(w.push_reading(510));
    let mut low = StabilityMonitor::new(100);
    for _ in 0..9 {
        low.push_reading(300);
    }
    assert!(low.push_reading(300));
    assert!(!low.push_reading(331));
    assert!(low.push_reading(330) == false);
}

#[test]
fn power_logger_decisions() {
    let mut l = PowerLogger::new();
    let d = l.on_sample(1000, false);
    assert!(d == SampleDecision { record: false, warn: false, sleep_ms: 10000 });
    let d = l.on_sample(1451, false);
    assert!(d == SampleDecision { record: false, warn: true, sleep_ms: 10000 });
    let d = l.on_sample(1450, true);
    assert!(d == SampleDecision { record: true, warn: false, sleep_ms: 0 });
    let d = l.on_sample(1460, false);
    assert!(d == SampleDecision { record: false, warn: true, sleep_ms: 0 });
}
