use a2a_framework::persistence::{cleanup_cutoff, cleanup_cutoff_at, task_key, task_key_pattern, Cleanup};
use a2a_framework::server::{plan_request, RequestAction};
use a2a_framework::transport::internal_error_response;
use a2a_framework::server_builder::{framework_version, plan_build, AgentSettings, BuildError};
use a2a_framework::task::{fresh_task, new_task};
use a2a_framework::types::{
    JsonRpcRequest, Message, MessagesParam, Part, RequestParams, TaskIdParam, TaskState, TaskStreamingEvent, Timestamp,
};

fn lookup(task_id: &str) -> Option<u128> {
    let req = JsonRpcRequest {
        jsonrpc: "2.0".to_string(),
        id: "1".to_string(),
        method: "tasks/get".to_string(),
        params: RequestParams {
            task_id: TaskIdParam::Text(task_id.to_string()),
            messages: MessagesParam::Missing,
            push_notification_config: None,
        },
    };
    match plan_request(req) {
        RequestAction::GetTask { task_id } => Some(task_id),
        _ => None,
    }
}

fn error_data(text: &str) -> String {
    internal_error_response("1".to_string(), text).error.unwrap().data.unwrap()
}

#[test]
fn uuid_text_is_hyphenated_lower_case() {
    assert_eq!(task_key(0x67E5504410B1426F9247BB680E5FE0C8u128), "task:67e55044-10b1-426f-9247-bb680e5fe0c8");
    assert_eq!(task_key(0), "task:00000000-0000-0000-0000-000000000000");
}

#[test]
fn uuid_text_parses_back() {
    let t = fresh_task(1, vec![], None);
    let key = task_key(t.id);
    assert_eq!(lookup(&key["task:".len()..]), Some(t.id));
    assert_eq!(lookup("67E55044-10B1-426F-9247-BB680E5FE0C8"), Some(0x67e5504410b1426f9247bb680e5fe0c8));
    assert_eq!(lookup("67e5504410b1426f9247bb680e5fe0c8"), Some(0x67e5504410b1426f9247bb680e5fe0c8));
    assert_eq!(lookup("zz"), None);
}

#[test]
fn json_error_data_quotes_and_escapes() {
    assert_eq!(error_data("plain"), "{\"error\":\"plain\"}");
    assert_eq!(error_data("a\"b\\c\td\u{8}\u{c}\r"), "{\"error\":\"a\\\"b\\\\c\\td\\b\\f\\r\"}");
    assert_eq!(error_data("\u{1f}\u{7f}é"), "{\"error\":\"\\u001f\u{7f}é\"}");
}

#[test]
fn cutoff_takes_whole_days_off() {
    let t = Timestamp { secs: 1_000_000, nanos: 7 };
    assert_eq!(cleanup_cutoff_at(t, 2), Some(Timestamp { secs: 1_000_000 - 2 * 86400, nanos: 7 }));
    assert_eq!(cleanup_cutoff_at(t, -1), Some(Timestamp { secs: 1_000_000 + 86400, nanos: 7 }));
    assert_eq!(cleanup_cutoff_at(t, i64::MAX), None);
    assert_eq!(cleanup_cutoff_at(t, 0), Some(t));
}

#[test]
fn cleanup_cutoff_lies_in_the_past() {
    let before = fresh_task(1, vec![], None).created_at;
    let c = cleanup_cutoff(1).unwrap();
    assert!(c.before(&before));
    assert!(cleanup_cutoff(i64::MAX).is_none());
}

#[test]
fn timestamps_order_by_seconds_then_nanos() {
    let a = Timestamp { secs: 5, nanos: 10 };
    assert!(a.before(&Timestamp { secs: 6, nanos: 0 }));
    assert!(a.before(&Timestamp { secs: 5, nanos: 11 }));
    assert!(!a.before(&a));
    assert!(!Timestamp { secs: 6, nanos: 0 }.before(&a));
}

#[test]
fn task_key_pattern_matches_all_task_keys() {
    assert_eq!(task_key_pattern(), "task:*");
}

#[test]
fn framework_version_is_the_package_version() {
    assert_eq!(framework_version(), "0.1.0");
}

#[test]
fn build_needs_a_transport_factory() {
    let r = plan_build(false, false, AgentSettings::new());
    assert_eq!(r.err(), Some(BuildError::MissingTransportFactory));
    assert_eq!(BuildError::MissingTransportFactory.message(), "Transport factory is required");
}

#[test]
fn build_with_own_task_manager_needs_no_agent_card() {
    assert!(matches!(plan_build(true, true, AgentSettings::new()), Ok(None)));
}

#[test]
fn default_agent_card_fills_in_defaults() {
    let card = plan_build(true, false, AgentSettings::new()).unwrap().unwrap();
    assert_eq!(card.name, "A2A Agent");
    assert_eq!(card.description, "A generic A2A agent implementation");
    assert!(card.metadata.is_none());
    assert_eq!(card.version.as_deref(), Some("0.1.0"));
}

#[test]
fn agent_settings_are_used_when_given() {
    let s = AgentSettings::new()
        .with_agent_id(11)
        .with_agent_name("A2A Server".to_string())
        .with_agent_description("A Rust implementation of the A2A protocol server".to_string());
    let card = plan_build(true, false, s).unwrap().unwrap();
    assert_eq!(card.id, 11);
    assert_eq!(card.name, "A2A Server");
    assert_eq!(card.description, "A Rust implementation of the A2A protocol server");
    let card = AgentSettings::new().agent_card_with(5, "9.9.9");
    assert_eq!(card.id, 5);
    assert_eq!(card.version.as_deref(), Some("9.9.9"));
}

#[test]
fn tasks_replay_streamed_events() {
    let mut t = new_task(1, 2, Timestamp { secs: 0, nanos: 0 }, vec![], None);
    for e in a2a_framework::task::fresh_streaming_events(1) {
        t.apply_event(&e);
    }
    assert_eq!(t.state, TaskState::Completed);
    assert_eq!(t.outputs.len(), 2);
    assert!(t.error.is_none());
}

#[test]
fn fresh_task_is_created_now() {
    let before = cleanup_cutoff_at(fresh_task(3, vec![], None).created_at, 0).unwrap();
    let t = fresh_task(3, vec![], None);
    assert_eq!(t.agent_id, 3);
    assert_eq!(t.state, TaskState::Created);
    assert!(!t.created_at.before(&before));
    assert_eq!(t.updated_at, Some(t.created_at));
}

#[test]
fn state_change_and_message_events_update_a_task() {
    let mut t = new_task(1, 2, Timestamp { secs: 0, nanos: 0 }, vec![], None);
    let at = Timestamp { secs: 9, nanos: 1 };
    t.apply_event_at(
        &TaskStreamingEvent::StateChange { event: "task_state_changed".to_string(), task_id: 1, state: TaskState::Failed, error: None },
        at,
    );
    assert_eq!(t.state, TaskState::Failed);
    assert_eq!(t.updated_at, Some(at));
    let m = Message { id: 4, created_at: at, role: "user".to_string(), parts: vec![Part::Text { text: "x".to_string() }] };
    t.apply_event_at(&TaskStreamingEvent::MessageAdd { event: "message_added".to_string(), task_id: 1, message: m }, at);
    assert_eq!(t.inputs.len(), 1);
    assert_eq!(t.outputs.len(), 0);
}

#[test]
fn different_tasks_have_different_keys() {
    assert_ne!(task_key(1), task_key(2));
    assert_ne!(task_key(1 << 127), task_key(1 << 126));
    let a = fresh_task(1, vec![], None);
    let b = fresh_task(1, vec![], None);
    assert_ne!(task_key(a.id), task_key(b.id));
}

#[test]
fn cleanup_deletes_readable_tasks_older_than_the_cutoff() {
    let cutoff = Timestamp { secs: 100, nanos: 0 };
    let mut c = Cleanup::new(cutoff);
    assert!(c.consider(Some(Timestamp { secs: 99, nanos: 999_999_999 })));
    assert!(!c.consider(Some(cutoff)));
    assert!(!c.consider(None));
    assert!(!c.consider(Some(Timestamp { secs: 101, nanos: 0 })));
    assert!(c.consider(Some(Timestamp { secs: -5, nanos: 0 })));
    assert_eq!(c.deleted(), 2);
}

#[test]
fn cutoff_exists_within_the_calendar_range() {
    let min = -8_334_601_228_800i64;
    let max = 8_210_266_876_799i64;
    let at = |secs: i64| Timestamp { secs, nanos: 999_999_999 };
    assert_eq!(cleanup_cutoff_at(at(min), 0), Some(at(min)));
    assert_eq!(cleanup_cutoff_at(at(max), 0), Some(at(max)));
    assert_eq!(cleanup_cutoff_at(at(min - 1), 0), None);
    assert_eq!(cleanup_cutoff_at(at(max + 1), 0), None);
    assert_eq!(cleanup_cutoff_at(at(min + 86_400), 1), Some(at(min)));
    assert_eq!(cleanup_cutoff_at(at(min + 86_399), 1), None);
    assert_eq!(cleanup_cutoff_at(at(max - 86_400), -1), Some(at(max)));
    assert_eq!(cleanup_cutoff_at(at(max - 86_399), -1), None);
    assert_eq!(cleanup_cutoff_at(at(0), (max - min) / 86_400 + 1), None);
}

#[test]
fn a_longer_age_deletes_no_task_that_a_shorter_one_keeps() {
    let now = Timestamp { secs: 10 * 86_400, nanos: 5 };
    let one_day = cleanup_cutoff_at(now, 1).unwrap();
    let three_days = cleanup_cutoff_at(now, 3).unwrap();
    assert_eq!(one_day, Timestamp { secs: 9 * 86_400, nanos: 5 });
    assert_eq!(three_days, Timestamp { secs: 7 * 86_400, nanos: 5 });
    let created = [
        Some(Timestamp { secs: 6 * 86_400, nanos: 0 }),
        Some(Timestamp { secs: 8 * 86_400, nanos: 0 }),
        None,
        Some(Timestamp { secs: 9 * 86_400, nanos: 9 }),
    ];
    let mut shorter = Cleanup::new(one_day);
    let mut longer = Cleanup::new(three_days);
    for c in created {
        let by_longer = longer.consider(c);
        let by_shorter = shorter.consider(c);
        assert!(!by_longer || by_shorter);
    }
    assert_eq!(shorter.deleted(), 2);
    assert_eq!(longer.deleted(), 1);
}
