use renderer::config::{game_config, RENDER_TARGET};
use renderer::host::{greet, HostCall, GREETING_TEXT, STARTUP_TEXT};
use renderer::startup::{Action, Event, Stage, Startup};

fn alert_text(call: &HostCall) -> Option<String> {
    match call {
        HostCall::Alert(s) => Some(s.clone()),
        HostCall::Echo(_) => None,
    }
}

/// Drives a fresh sequence through start, alert and an echo that returns `v`.
fn drive(v: i32) -> (Vec<String>, Stage) {
    let mut s = Startup::new();
    let mut log: Vec<String> = Vec::new();
    for event in [Event::Start, Event::AlertDone, Event::EchoDone(v)] {
        let entry = match s.step(event) {
            Action::Call(HostCall::Alert(t)) => format!("alert:{}", t),
            Action::Call(HostCall::Echo(n)) => format!("echo:{}", n),
            Action::Run(cfg) => format!("run:{}", cfg.canvas().unwrap_or("")),
            Action::Idle => "idle".to_string(),
        };
        log.push(entry);
    }
    (log, s.stage())
}

#[test]
fn greet_once_gives_one_alert() {
    let calls = greet();
    assert_eq!(calls.len(), 1);
    assert_eq!(
        alert_text(&calls[0]).as_deref(),
        Some("MEOW MEOW MEOW MEOW MEOW MEOW MEOW MEOW MEOW MEOW MEOW MEOW MEOW MEOW")
    );
}

#[test]
fn greet_twice_gives_two_independent_alerts() {
    let first = greet();
    let second = greet();
    assert_eq!(first.len() + second.len(), 2);
    assert_eq!(alert_text(&first[0]), alert_text(&second[0]));
    assert_eq!(alert_text(&second[0]).as_deref(), Some(GREETING_TEXT));
}

#[test]
fn startup_runs_alert_echo_then_engine() {
    let (log, stage) = drive(0);
    assert_eq!(log, vec!["alert:MEOW", "echo:5", "run:#game-canvas"]);
    assert!(stage == Stage::Running);
}

#[test]
fn echo_result_does_not_change_behaviour() {
    let base = drive(5);
    assert_eq!(drive(-1), base);
    assert_eq!(drive(i32::MAX), base);
    assert_eq!(drive(i32::MIN), base);
}

#[test]
fn game_config_binds_canvas() {
    let cfg = game_config();
    assert!(cfg.primary_window.is_some());
    assert_eq!(cfg.canvas(), Some("#game-canvas"));
    assert_eq!(RENDER_TARGET, "#game-canvas");
}

#[test]
fn running_never_leaves() {
    let mut s = Startup::new();
    s.step(Event::Start);
    s.step(Event::AlertDone);
    assert!(matches!(s.step(Event::EchoDone(7)), Action::Run(_)));
    for event in [Event::Start, Event::AlertDone, Event::EchoDone(1)] {
        assert!(matches!(s.step(event), Action::Idle));
        assert!(s.stage() == Stage::Running);
    }
}

#[test]
fn out_of_order_events_are_ignored() {
    let mut s = Startup::new();
    assert!(matches!(s.step(Event::AlertDone), Action::Idle));
    assert!(matches!(s.step(Event::EchoDone(3)), Action::Idle));
    assert!(s.stage() == Stage::Loaded);
    match s.step(Event::Start) {
        Action::Call(HostCall::Alert(t)) => assert_eq!(t, STARTUP_TEXT),
        _ => panic!("expected the startup alert"),
    }
    assert!(matches!(s.step(Event::Start), Action::Idle));
    assert!(s.stage() == Stage::Notifying);
    assert!(matches!(s.step(Event::AlertDone), Action::Call(HostCall::Echo(5))));
    assert!(s.stage() == Stage::Echoing);
}
