use telegram_cli::automation::filters::build_wait_filter;
use telegram_cli::automation::runner::{
    cleanup_event, plan_step, remember_sent, run_status, send_event, step_event_kind, SavedMessages,
    ScenarioRun, StepAction,
};
use telegram_cli::automation::spec::{
    default_timeout, CleanupStep, ScenarioSpec, ScenarioStep, SendStep, WaitStep,
};
use telegram_cli::errors::TelegramCliError;
use telegram_cli::json::JsonValue;
use telegram_cli::telegram::messages::SentMessage;

fn spec() -> ScenarioSpec {
    ScenarioSpec {
        name: "smoke".into(),
        accounts: vec![("qa".into(), "alice".into())],
        targets: vec![("bot".into(), "@qa_bot".into())],
        steps: vec![],
    }
}

fn wait_step() -> WaitStep {
    WaitStep {
        as_ref: "qa".into(),
        chat: "bot".into(),
        text: None,
        text_contains: Some("pong".into()),
        timeout: default_timeout(),
    }
}

#[test]
fn steps_resolve_account_and_target_aliases() {
    let spec = spec();
    let saved = SavedMessages::new();
    let send = ScenarioStep::Send {
        send: SendStep { as_ref: "qa".into(), to: "bot".into(), text: "ping".into(), save_as: Some("m".into()) },
    };
    match plan_step(&spec, &send, &saved).unwrap() {
        StepAction::Send { account, target, text } => {
            assert_eq!(account, "alice");
            assert_eq!(target, "@qa_bot");
            assert_eq!(text, "ping");
        }
        _ => panic!("expected a send"),
    }
    let direct = ScenarioStep::Send {
        send: SendStep { as_ref: "bob".into(), to: "@x".into(), text: "hi".into(), save_as: None },
    };
    match plan_step(&spec, &direct, &saved).unwrap() {
        StepAction::Send { account, target, .. } => {
            assert_eq!(account, "bob");
            assert_eq!(target, "@x");
        }
        _ => panic!("expected a send"),
    }
    match plan_step(&spec, &ScenarioStep::Wait { wait: wait_step() }, &saved).unwrap() {
        StepAction::Wait { account, chat, filter, timeout } => {
            assert_eq!(account, "alice");
            assert_eq!(chat, "@qa_bot");
            assert_eq!(filter.text_contains.as_deref(), Some("pong"));
            assert_eq!(timeout, "20s");
        }
        _ => panic!("expected a wait"),
    }
}

#[test]
fn cleanup_needs_a_remembered_message() {
    let spec = spec();
    let mut saved = SavedMessages::new();
    let cleanup = ScenarioStep::Cleanup {
        cleanup: CleanupStep { as_ref: "qa".into(), chat: "bot".into(), saved_message: "m".into() },
    };
    match plan_step(&spec, &cleanup, &saved).unwrap_err() {
        TelegramCliError::Message(m) => assert_eq!(m, "saved message m was not found in runtime context"),
        other => panic!("unexpected {other:?}"),
    }
    let step = SendStep { as_ref: "qa".into(), to: "bot".into(), text: "ping".into(), save_as: Some("m".into()) };
    remember_sent(&mut saved, &step, 11);
    remember_sent(&mut saved, &step, 12);
    assert_eq!(saved.get("m"), Some(12));
    assert_eq!(saved.get("n"), None);
    match plan_step(&spec, &cleanup, &saved).unwrap() {
        StepAction::Delete { account, chat, message_id } => {
            assert_eq!(account, "alice");
            assert_eq!(chat, "@qa_bot");
            assert_eq!(message_id, 12);
        }
        _ => panic!("expected a delete"),
    }
}

#[test]
fn run_log_entries_and_status() {
    let sent = SentMessage {
        message_id: 3,
        account_name: "alice".into(),
        peer_id: 42,
        text: Some("ping".into()),
        file_path: None,
        caption: None,
        timestamp: "t".into(),
    };
    let e = send_event(&sent);
    assert_eq!(
        e,
        JsonValue::Object(vec![
            ("peer_id".into(), JsonValue::Number("42".into())),
            ("message_id".into(), JsonValue::Number("3".into())),
            ("text".into(), JsonValue::Str("ping".into())),
        ])
    );
    let c = cleanup_event(&CleanupStep { as_ref: "qa".into(), chat: "bot".into(), saved_message: "m".into() });
    assert_eq!(
        c,
        JsonValue::Object(vec![
            ("chat".into(), JsonValue::Str("bot".into())),
            ("saved_message".into(), JsonValue::Str("m".into())),
        ])
    );
    assert_eq!(run_status(true), "passed");
    assert_eq!(run_status(false), "failed");
    assert_eq!(step_event_kind(&ScenarioStep::Wait { wait: wait_step() }), "wait");
    let f = build_wait_filter(&wait_step());
    assert_eq!(f.text_equals, None);
    assert_eq!(f.sender, None);
}

#[test]
fn scenario_run_stops_at_the_first_failure() {
    let send = ScenarioStep::Send {
        send: SendStep { as_ref: "qa".into(), to: "bot".into(), text: "ping".into(), save_as: Some("m".into()) },
    };
    let spec = ScenarioSpec {
        name: "s".into(),
        accounts: Vec::new(),
        targets: Vec::new(),
        steps: vec![send.clone(), send.clone(), send],
    };
    let mut run = ScenarioRun::start();
    assert_eq!(run.next_step(3), Some(0));
    run.step_succeeded(&spec, Some(7));
    assert_eq!(run.saved.get("m"), Some(7));
    assert_eq!(run.events, vec!["send"]);
    assert_eq!(run.next_step(3), Some(1));
    run.step_failed();
    assert_eq!(run.next_step(3), None);
    assert_eq!(run.status(3), "failed");
    assert_eq!(run.events, vec!["send"]);

    let one = ScenarioSpec { steps: vec![spec.steps[0].clone()], ..spec };
    let mut clean = ScenarioRun::start();
    clean.step_succeeded(&one, None);
    assert_eq!(clean.saved.get("m"), None);
    assert_eq!(clean.next_step(1), None);
    assert_eq!(clean.status(1), "passed");
    assert_eq!(ScenarioRun::start().status(0), "passed");
}
