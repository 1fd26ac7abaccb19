use a2a_framework::task::{check_cancellable, TaskManagerError};
use a2a_framework::task_manager::TaskManager;
use a2a_framework::types::{AgentCard, Message, Part, PushNotificationConfig, TaskState, TaskStreamingEvent, Timestamp};

fn agent() -> AgentCard {
    AgentCard {
        id: 42,
        name: "Test Agent".to_string(),
        description: "An agent for tests".to_string(),
        metadata: None,
        version: Some("0.1.0".to_string()),
    }
}

fn message(id: u128, role: &str, text: &str) -> Message {
    Message {
        id,
        created_at: Timestamp { secs: 1_700_000_000, nanos: 5 },
        role: role.to_string(),
        parts: vec![Part::Text { text: text.to_string() }],
    }
}

fn text_of(m: &Message) -> String {
    match &m.parts[0] {
        Part::Text { text } => text.clone(),
        Part::Artifact { .. } => panic!("expected a text part"),
    }
}

#[test]
fn new_manager_has_no_tasks_and_keeps_agent() {
    let tm = TaskManager::new(agent());
    assert_eq!(tm.agent().id, 42);
    assert_eq!(tm.agent().name, "Test Agent");
    assert!(tm.get_task(1).is_none());
}

#[test]
fn created_task_is_returned_by_get() {
    let mut tm = TaskManager::new(agent());
    let push = PushNotificationConfig::new("http://example.com/hook".to_string());
    let t = tm.create_task(vec![message(1, "user", "hello")], Some(push));
    assert_eq!(t.state, TaskState::Created);
    assert_eq!(t.agent_id, 42);
    assert_eq!(t.updated_at, Some(t.created_at));
    assert!(t.outputs.is_empty());
    assert!(t.error.is_none());
    assert_eq!(t.inputs.len(), 1);
    let got = tm.get_task(t.id).expect("the created task is stored");
    assert_eq!(got.id, t.id);
    assert_eq!(got.state, TaskState::Created);
    assert_eq!(got.inputs[0].id, 1);
    assert_eq!(got.push_notification_config.unwrap().url(), "http://example.com/hook");
}

#[test]
fn create_task_at_uses_given_id_and_time() {
    let mut tm = TaskManager::new(agent());
    let now = Timestamp { secs: 10, nanos: 20 };
    let t = tm.create_task_at(7, now, vec![], None);
    assert_eq!(t.id, 7);
    assert_eq!(t.created_at, now);
    assert_eq!(t.updated_at, Some(now));
    assert_eq!(tm.get_task(7).unwrap().created_at, now);
}

#[test]
fn two_created_tasks_get_distinct_ids() {
    let mut tm = TaskManager::new(agent());
    let a = tm.create_task(vec![], None);
    let b = tm.create_task(vec![], None);
    assert_ne!(a.id, b.id);
    assert!(tm.get_task(a.id).is_some());
    assert!(tm.get_task(b.id).is_some());
}

#[test]
fn update_unknown_task_is_not_found() {
    let mut tm = TaskManager::new(agent());
    let r = tm.update_task(99, TaskState::Processing, None);
    assert_eq!(r.err(), Some(TaskManagerError::TaskNotFound));
    assert_eq!(TaskManagerError::TaskNotFound.message(), "Task not found");
}

#[test]
fn update_sets_state_error_and_time() {
    let mut tm = TaskManager::new(agent());
    let t = tm.create_task_at(3, Timestamp { secs: 1, nanos: 0 }, vec![], None);
    let err = a2a_framework::types::TaskError { code: 5, message: "boom".to_string(), data: None };
    let later = Timestamp { secs: 2, nanos: 0 };
    let u = tm.update_task_at(t.id, TaskState::Failed, Some(err), later).unwrap();
    assert_eq!(u.state, TaskState::Failed);
    assert_eq!(u.error.as_ref().unwrap().message, "boom");
    assert_eq!(u.updated_at, Some(later));
    assert_eq!(u.created_at, Timestamp { secs: 1, nanos: 0 });
    assert_eq!(tm.get_task(3).unwrap().state, TaskState::Failed);
}

#[test]
fn assistant_messages_go_to_outputs_others_to_inputs() {
    let mut tm = TaskManager::new(agent());
    let t = tm.create_task(vec![message(1, "user", "q")], None);
    let a = tm.add_message(t.id, message(2, "assistant", "answer")).unwrap();
    assert_eq!(a.outputs.len(), 1);
    assert_eq!(a.inputs.len(), 1);
    let b = tm.add_message(t.id, message(3, "user", "more")).unwrap();
    assert_eq!(b.inputs.len(), 2);
    assert_eq!(b.inputs[1].id, 3);
    assert_eq!(b.outputs.len(), 1);
    assert_eq!(b.outputs[0].id, 2);
}

#[test]
fn add_message_to_unknown_task_is_not_found() {
    let mut tm = TaskManager::new(agent());
    assert_eq!(tm.add_message(5, message(1, "user", "x")).err(), Some(TaskManagerError::TaskNotFound));
}

#[test]
fn process_task_completes_with_simulated_answer() {
    let mut tm = TaskManager::new(agent());
    let t = tm.create_task(vec![message(1, "user", "q")], None);
    let p = tm.process_task(t.id).unwrap();
    assert_eq!(p.state, TaskState::Completed);
    assert!(p.error.is_none());
    assert_eq!(p.inputs.len(), 1);
    assert_eq!(p.outputs.len(), 1);
    assert_eq!(p.outputs[0].role, "assistant");
    assert_eq!(text_of(&p.outputs[0]), "This is a simulated response from the agent.");
    assert_eq!(tm.get_task(t.id).unwrap().state, TaskState::Completed);
}

#[test]
fn process_unknown_task_is_not_found() {
    let mut tm = TaskManager::new(agent());
    assert_eq!(tm.process_task(1).err(), Some(TaskManagerError::TaskNotFound));
}

#[test]
fn streaming_moves_task_to_processing_and_returns_four_events() {
    let mut tm = TaskManager::new(agent());
    let t = tm.create_task(vec![], None);
    let events = tm.process_task_streaming(t.id).unwrap();
    assert_eq!(events.len(), 4);
    match &events[0] {
        TaskStreamingEvent::StateChange { event, task_id, state, error } => {
            assert_eq!(event, "task_state_changed");
            assert_eq!(*task_id, t.id);
            assert_eq!(*state, TaskState::Processing);
            assert!(error.is_none());
        }
        _ => panic!("first event is a state change"),
    }
    match &events[1] {
        TaskStreamingEvent::MessageAdd { event, task_id, message } => {
            assert_eq!(event, "message_added");
            assert_eq!(*task_id, t.id);
            assert_eq!(text_of(message), "I'm thinking about this...");
        }
        _ => panic!("second event adds a message"),
    }
    match &events[2] {
        TaskStreamingEvent::MessageAdd { message, .. } => {
            assert_eq!(text_of(message), "This is a simulated response from the agent.");
            assert_eq!(message.role, "assistant");
        }
        _ => panic!("third event adds a message"),
    }
    match &events[3] {
        TaskStreamingEvent::StateChange { state, .. } => assert_eq!(*state, TaskState::Completed),
        _ => panic!("last event is a state change"),
    }
    let stored = tm.get_task(t.id).unwrap();
    assert_eq!(stored.state, TaskState::Processing);
    assert!(stored.outputs.is_empty());
}

#[test]
fn applying_streamed_events_completes_the_task() {
    let mut tm = TaskManager::new(agent());
    let t = tm.create_task(vec![], None);
    let events = tm.process_task_streaming(t.id).unwrap();
    for e in &events {
        tm.apply_event(t.id, e).unwrap();
    }
    let done = tm.get_task(t.id).unwrap();
    assert_eq!(done.state, TaskState::Completed);
    assert_eq!(done.outputs.len(), 2);
}

#[test]
fn cancel_unfinished_task_then_cancel_again_is_refused() {
    let mut tm = TaskManager::new(agent());
    let t = tm.create_task(vec![], None);
    let c = tm.cancel_task(t.id).unwrap();
    assert_eq!(c.state, TaskState::Cancelled);
    let again = tm.cancel_task(t.id);
    assert_eq!(again.err(), Some(TaskManagerError::CannotCancel(TaskState::Cancelled)));
    assert_eq!(tm.get_task(t.id).unwrap().state, TaskState::Cancelled);
}

#[test]
fn cancel_completed_task_is_refused_with_message() {
    let mut tm = TaskManager::new(agent());
    let t = tm.create_task(vec![], None);
    tm.process_task(t.id).unwrap();
    let e = tm.cancel_task(t.id).unwrap_err();
    assert_eq!(e, TaskManagerError::CannotCancel(TaskState::Completed));
    assert_eq!(e.message(), "Cannot cancel task in state Completed");
}

#[test]
fn cancel_unknown_task_is_not_found() {
    let mut tm = TaskManager::new(agent());
    assert_eq!(tm.cancel_task(8).err(), Some(TaskManagerError::TaskNotFound));
}

#[test]
fn cancellable_only_before_finishing() {
    assert!(check_cancellable(TaskState::Created).is_ok());
    assert!(check_cancellable(TaskState::InputRequired).is_ok());
    assert!(check_cancellable(TaskState::Processing).is_ok());
    assert_eq!(check_cancellable(TaskState::Failed), Err(TaskManagerError::CannotCancel(TaskState::Failed)));
    assert_eq!(
        TaskManagerError::CannotCancel(TaskState::InputRequired).message(),
        "Cannot cancel task in state InputRequired"
    );
}

#[test]
fn cloned_manager_copies_agent_and_tasks() {
    let mut tm = TaskManager::new(agent());
    let t = tm.create_task(vec![], None);
    let mut c = tm.clone();
    assert_eq!(c.agent().id, 42);
    assert_eq!(c.get_task(t.id).unwrap().id, t.id);
    c.cancel_task(t.id).unwrap();
    assert_eq!(tm.get_task(t.id).unwrap().state, TaskState::Created);
}

#[test]
fn streamed_events_applied_to_the_store_complete_the_task() {
    let mut tm = TaskManager::new(agent());
    let t = tm.create_task(vec![message(1, "user", "q")], None);
    let events = tm.process_task_streaming(t.id).unwrap();
    let done = tm.apply_events(t.id, &events).unwrap();
    assert_eq!(done.state, TaskState::Completed);
    assert!(done.error.is_none());
    assert_eq!(done.inputs.len(), 1);
    assert_eq!(done.outputs.len(), 2);
    assert_eq!(text_of(&done.outputs[0]), "I'm thinking about this...");
    assert_eq!(text_of(&done.outputs[1]), "This is a simulated response from the agent.");
    let stored = tm.get_task(t.id).unwrap();
    assert_eq!(stored.state, TaskState::Completed);
    assert_eq!(stored.outputs.len(), 2);
}

#[test]
fn applying_events_to_unknown_task_is_not_found() {
    let mut tm = TaskManager::new(agent());
    let t = tm.create_task(vec![], None);
    let events = tm.process_task_streaming(t.id).unwrap();
    assert_eq!(tm.apply_events(t.id + 1, &events).err(), Some(TaskManagerError::TaskNotFound));
    assert!(tm.apply_events(t.id, &Vec::new()).is_ok());
}

#[test]
fn push_headers_keep_one_value_per_name() {
    let mut c = PushNotificationConfig::new("http://hook".to_string());
    assert!(c.headers().is_none());
    c.clear_headers();
    assert_eq!(c.headers().unwrap().len(), 0);
    c.insert_header("X-A".to_string(), "1".to_string());
    c.insert_header("X-B".to_string(), "2".to_string());
    c.insert_header("X-A".to_string(), "3".to_string());
    let h = c.headers().unwrap();
    assert_eq!(h.len(), 2);
    assert_eq!((h[0].name.as_str(), h[0].value.as_str()), ("X-A", "3"));
    assert_eq!((h[1].name.as_str(), h[1].value.as_str()), ("X-B", "2"));
    assert_eq!(c.url(), "http://hook");
}
