use app_launcher::json::{JsonNumber, JsonValue};
use app_launcher::state::{Device, Setting};
use app_launcher::{State, StateManager};

fn to_json(v: &serde_json::Value) -> JsonValue {
    match v {
        serde_json::Value::Null => JsonValue::Null,
        serde_json::Value::Bool(b) => JsonValue::Bool(*b),
        serde_json::Value::Number(n) => {
            if let Some(u) = n.as_u64() {
                JsonValue::Number(JsonNumber::PosInt(u))
            } else if let Some(i) = n.as_i64() {
                JsonValue::Number(JsonNumber::NegInt(i))
            } else {
                JsonValue::Number(JsonNumber::Float(n.as_f64().unwrap().to_bits()))
            }
        }
        serde_json::Value::String(s) => JsonValue::String(s.clone()),
        serde_json::Value::Array(a) => JsonValue::Array(a.iter().map(to_json).collect()),
        serde_json::Value::Object(o) => {
            JsonValue::Object(o.iter().map(|(k, v)| (k.clone(), to_json(v))).collect())
        }
    }
}

fn parse(text: &str) -> JsonValue {
    let v: serde_json::Value = serde_json::from_str(text).unwrap();
    to_json(&v)
}

#[test]
fn test_complete_state_from_value() {
    let testv = r#"
        {
            "GPU_Freq": 390,
            "CPU_Freq": 1000,
            "Fan_Speed": 40,
            "Time": 0
        
        }
        "#;
    let v = parse(testv);
    let s = State::from_json(&v);
    assert!(s == State::new(Some(1000), Some(390), Some(40), Some(0)));
}

#[test]
fn test_state_from_partial_value() {
    let testv = r#"
        {
            "GPU_Freq": 765
        }
        "#;
    let v = parse(testv);
    let s = State::from_json(&v);
    assert!(s == State::new(None, Some(765), None, None));
}

#[test]
fn state_test_display() {
    let testv = r#"
        {
            "GPU_Freq": 765
        }
        "#;
    let v = parse(testv);
    let s = State::from_json(&v);
    let res = s.to_display_string();
    assert_eq!("GPU_Freq: 765MHz,", res);
}

#[test]
fn display_of_every_field() {
    let s = State::new(Some(2400), Some(1410), Some(75), Some(1500));
    assert_eq!(
        s.to_display_string(),
        "CPU_Freq: 2400MHz,GPU_Freq: 1410MHz,Fan_Speed: 75%,Lasting_time: 1.5s,"
    );
    assert_eq!(
        s.to_debug_string(),
        "State{CPU_Freq: 2400MHz,GPU_Freq: 1410MHz,Fan_Speed: 75%,Lasting_time: 1.5s,}"
    );
}

#[test]
fn display_of_empty_state_and_zero_time() {
    assert_eq!(State::new(None, None, None, None).to_display_string(), "");
    assert_eq!(State::new(None, None, None, None).to_debug_string(), "State{}");
    assert_eq!(State::new(None, None, Some(0), Some(0)).to_display_string(), "Fan_Speed: 0%,Lasting_time: 0ns,");
}

#[test]
fn render_fields_uses_given_time_text() {
    let s = State::new(Some(7), None, None, Some(5));
    assert_eq!(s.render_fields("later"), "CPU_Freq: 7MHz,Lasting_time: later,");
    let t = State::new(Some(7), None, None, None);
    assert_eq!(t.render_fields("later"), "CPU_Freq: 7MHz,");
}

#[test]
fn command_lines() {
    assert_eq!(Setting { device: Device::Cpu, value: 1200 }.command(), "SETFREQ CPU 1200");
    assert_eq!(Setting { device: Device::Gpu, value: 0 }.command(), "SETFREQ GPU 0");
    assert_eq!(Setting { device: Device::Fan, value: 100 }.command(), "SETSPEED FAN 100");
    let m = StateManager::new(State::new(None, None, None, None));
    assert_eq!(m.set_cpu_freq(18446744073709551615), "SETFREQ CPU 18446744073709551615");
    assert_eq!(m.set_gpu_freq(765), "SETFREQ GPU 765");
    assert_eq!(m.set_fan_speed(40), "SETSPEED FAN 40");
}

#[test]
fn invalid_state_documents() {
    assert!(!State::is_valid_json(&parse("[1, 2]")));
    assert!(!State::is_valid_json(&parse(r#"{"CPU_Freq": "fast"}"#)));
    assert!(!State::is_valid_json(&parse(r#"{"GPU_Freq": -5}"#)));
    assert!(!State::is_valid_json(&parse(r#"{"Fan_Speed": 1.5}"#)));
    assert!(!State::is_valid_json(&parse(r#"{"Time": null}"#)));
    assert!(State::is_valid_json(&parse(r#"{}"#)));
    assert!(State::is_valid_json(&parse(r#"{"Other": "ignored", "Time": 3}"#)));
    assert!(State::from_json(&parse(r#"{}"#)) == State::new(None, None, None, None));
}

#[test]
fn all_filled_needs_three_settings() {
    assert!(State::new(Some(1), Some(2), Some(3), None).all_filled());
    assert!(!State::new(Some(1), Some(2), None, Some(4)).all_filled());
    assert!(!State::new(None, Some(2), Some(3), None).all_filled());
}

#[test]
fn switch_state_issues_given_settings_in_order() {
    let mut m = StateManager::new(State::new(Some(1000), Some(390), Some(40), None));
    let step = m.switch_state(State::new(Some(1200), None, Some(80), Some(250)));
    assert!(
        step.settings
            == vec![
                Setting { device: Device::Cpu, value: 1200 },
                Setting { device: Device::Fan, value: 80 }
            ]
    );
    assert_eq!(step.sleep_ms, 250);
    assert!(m.current_state() == State::new(Some(1200), Some(390), Some(80), None));
}

#[test]
fn switch_state_default_hold_time() {
    let mut m = StateManager::new(State::new(None, None, None, Some(9)));
    let step = m.switch_state(State::new(None, Some(765), None, None));
    assert_eq!(step.sleep_ms, 1);
    assert!(m.current_state() == State::new(None, Some(765), None, Some(9)));
}

#[test]
fn switch_to_empty_state_changes_nothing() {
    let start = State::new(Some(1), Some(2), Some(3), Some(4));
    let mut m = StateManager::new(start);
    let step = m.switch_state(State::new(None, None, None, Some(10)));
    assert!(step.settings.is_empty());
    assert!(m.current_state() == start);
}

#[test]
fn switch_twice_is_switch_once() {
    let target = State::new(None, Some(500), Some(60), None);
    let mut once = StateManager::new(State::new(Some(1), Some(2), Some(3), None));
    once.switch_state(target);
    let mut twice = StateManager::new(State::new(Some(1), Some(2), Some(3), None));
    twice.switch_state(target);
    twice.switch_state(target);
    assert!(once.current_state() == twice.current_state());
}

#[test]
fn reset_after_filled_switch_repeats_it() {
    let mut m = StateManager::new(State::new(Some(1), Some(2), Some(3), None));
    let target = State::new(Some(1400), Some(900), Some(55), Some(3));
    let step = m.switch_state(target);
    assert!(m.reset() == step.settings);
    assert!(
        m.reset()
            == vec![
                Setting { device: Device::Cpu, value: 1400 },
                Setting { device: Device::Gpu, value: 900 },
                Setting { device: Device::Fan, value: 55 }
            ]
    );
}

#[test]
fn switch_keeps_state_filled() {
    let mut m = StateManager::new(State::new(Some(1), Some(2), Some(3), None));
    m.switch_state(State::new(None, Some(9), None, None));
    assert!(m.current_state().all_filled());
}

#[test]
fn reset_after_direct_setters_restores_recorded_state() {
    let m = StateManager::new(State::new(Some(1000), Some(390), Some(40), None));
    assert_eq!(m.set_fan_speed(100), "SETSPEED FAN 100");
    assert_eq!(m.set_cpu_freq(2000), "SETFREQ CPU 2000");
    assert_eq!(m.set_gpu_freq(1), "SETFREQ GPU 1");
    let commands: Vec<String> = m.reset().iter().map(|s| s.command()).collect();
    assert_eq!(commands, vec!["SETFREQ CPU 1000", "SETFREQ GPU 390", "SETSPEED FAN 40"]);
    assert!(m.current_state() == State::new(Some(1000), Some(390), Some(40), None));
}
