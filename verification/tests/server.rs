use a2a_framework::persistence::task_key;
use a2a_framework::server::{
    complete_request, plan_request, ActionOutcome, respond_agent, respond_events, respond_lookup, respond_task, RequestAction, TaskOperation,
    INTERNAL_ERROR, INVALID_PARAMS, METHOD_NOT_FOUND, TASK_NOT_FOUND,
};
use a2a_framework::task_manager::TaskManager;
use a2a_framework::types::{
    create_error_response, create_response, AgentCard, JsonRpcRequest, JsonRpcResponse, Message, MessagesParam,
    Part, RequestParams, RpcResult, TaskIdParam, Timestamp,
};

fn request(method: &str, task_id: TaskIdParam, messages: MessagesParam) -> JsonRpcRequest {
    JsonRpcRequest {
        jsonrpc: "2.0".to_string(),
        id: "req-1".to_string(),
        method: method.to_string(),
        params: RequestParams { task_id, messages, push_notification_config: None },
    }
}

fn error_of(r: &JsonRpcResponse) -> (i32, String) {
    let e = r.error.as_ref().expect("an error response");
    assert!(r.result.is_none());
    assert_eq!(r.jsonrpc, "2.0");
    (e.code, e.message.clone())
}

fn immediate(a: RequestAction) -> JsonRpcResponse {
    match a {
        RequestAction::Respond(r) => r,
        _ => panic!("expected an immediate answer"),
    }
}

fn agent() -> AgentCard {
    AgentCard { id: 9, name: "A".to_string(), description: "B".to_string(), metadata: None, version: None }
}

#[test]
fn get_info_asks_for_the_agent() {
    let a = plan_request(request("agents/getInfo", TaskIdParam::Missing, MessagesParam::Missing));
    assert!(matches!(a, RequestAction::GetAgentInfo));
    let r = respond_agent("req-1".to_string(), agent());
    assert_eq!(r.id, "req-1");
    assert!(r.error.is_none());
    match r.result {
        Some(RpcResult::Agent(card)) => assert_eq!(card.id, 9),
        _ => panic!("expected the agent"),
    }
}

#[test]
fn unknown_method_is_method_not_found() {
    let r = immediate(plan_request(request("tasks/frobnicate", TaskIdParam::Missing, MessagesParam::Missing)));
    assert_eq!(r.id, "req-1");
    assert_eq!(error_of(&r), (METHOD_NOT_FOUND, "Method not found: tasks/frobnicate".to_string()));
    assert_eq!(METHOD_NOT_FOUND, -32601);
}

#[test]
fn create_without_messages_is_invalid_params() {
    let r = immediate(plan_request(request("tasks/create", TaskIdParam::Missing, MessagesParam::Missing)));
    assert_eq!(error_of(&r), (INVALID_PARAMS, "Missing messages parameter".to_string()));
    assert_eq!(INVALID_PARAMS, -32602);
}

#[test]
fn create_with_malformed_messages_reports_the_parser() {
    let r = immediate(plan_request(request(
        "tasks/create",
        TaskIdParam::Missing,
        MessagesParam::Invalid("invalid type: integer `3`, expected a sequence".to_string()),
    )));
    assert_eq!(
        error_of(&r),
        (INVALID_PARAMS, "Invalid messages parameter: invalid type: integer `3`, expected a sequence".to_string())
    );
}

#[test]
fn create_with_messages_creates_a_task() {
    let m = Message {
        id: 1,
        created_at: Timestamp { secs: 0, nanos: 0 },
        role: "user".to_string(),
        parts: vec![Part::Text { text: "hi".to_string() }],
    };
    let a = plan_request(request("tasks/create", TaskIdParam::Missing, MessagesParam::Valid(vec![m])));
    match a {
        RequestAction::CreateTask { messages, push_notification_config } => {
            assert_eq!(messages.len(), 1);
            assert_eq!(messages[0].id, 1);
            assert!(push_notification_config.is_none());
        }
        _ => panic!("expected task creation"),
    }
}

#[test]
fn task_methods_need_a_task_id() {
    for method in ["tasks/get", "tasks/send", "tasks/sendSubscribe", "tasks/cancel"] {
        let r = immediate(plan_request(request(method, TaskIdParam::Missing, MessagesParam::Missing)));
        assert_eq!(error_of(&r), (INVALID_PARAMS, "Missing taskId parameter".to_string()));
        let r = immediate(plan_request(request(method, TaskIdParam::NotAString, MessagesParam::Missing)));
        assert_eq!(error_of(&r), (INVALID_PARAMS, "Invalid taskId parameter, must be a string".to_string()));
    }
}

#[test]
fn malformed_uuid_is_invalid_params() {
    let r = immediate(plan_request(request("tasks/get", TaskIdParam::Text("not-a-uuid".to_string()), MessagesParam::Missing)));
    let (code, message) = error_of(&r);
    assert_eq!(code, INVALID_PARAMS);
    assert!(message.starts_with("Invalid UUID format: "));
    assert!(message.len() > "Invalid UUID format: ".len());
}

#[test]
fn well_formed_task_ids_select_the_operation() {
    let text = "67e55044-10b1-426f-9247-bb680e5fe0c8".to_string();
    let v = 0x67e5504410b1426f9247bb680e5fe0c8u128;
    match plan_request(request("tasks/get", TaskIdParam::Text(text.clone()), MessagesParam::Missing)) {
        RequestAction::GetTask { task_id } => assert_eq!(task_id, v),
        _ => panic!("expected a lookup"),
    }
    match plan_request(request("tasks/send", TaskIdParam::Text(text.clone()), MessagesParam::Missing)) {
        RequestAction::SendTask { task_id } => assert_eq!(task_id, v),
        _ => panic!("expected processing"),
    }
    match plan_request(request("tasks/sendSubscribe", TaskIdParam::Text(text.clone()), MessagesParam::Missing)) {
        RequestAction::SendTaskSubscribe { task_id } => assert_eq!(task_id, v),
        _ => panic!("expected streamed processing"),
    }
    match plan_request(request("tasks/cancel", TaskIdParam::Text(text), MessagesParam::Missing)) {
        RequestAction::CancelTask { task_id } => assert_eq!(task_id, v),
        _ => panic!("expected cancellation"),
    }
}

#[test]
fn created_task_can_be_looked_up_by_its_id_text() {
    let mut tm = TaskManager::new(agent());
    let t = tm.create_task(vec![], None);
    let text = task_key(t.id)["task:".len()..].to_string();
    let task_id = match plan_request(request("tasks/get", TaskIdParam::Text(text), MessagesParam::Missing)) {
        RequestAction::GetTask { task_id } => task_id,
        _ => panic!("expected a lookup"),
    };
    assert_eq!(task_id, t.id);
    let r = respond_lookup("req-1".to_string(), task_id, Ok(tm.get_task(task_id)));
    match r.result {
        Some(RpcResult::Task(found)) => assert_eq!(found.id, t.id),
        _ => panic!("expected the task"),
    }
}

#[test]
fn missing_task_names_the_id() {
    let r = respond_lookup("x".to_string(), 0x67e5504410b1426f9247bb680e5fe0c8, Ok(None));
    assert_eq!(r.id, "x");
    assert_eq!(error_of(&r), (TASK_NOT_FOUND, "Task not found: 67e55044-10b1-426f-9247-bb680e5fe0c8".to_string()));
    assert_eq!(TASK_NOT_FOUND, -32001);
    let r = respond_lookup("x".to_string(), 1, Err("connection refused".to_string()));
    assert_eq!(error_of(&r), (INTERNAL_ERROR, "Failed to get task: connection refused".to_string()));
}

#[test]
fn failed_operations_name_the_operation() {
    let r = respond_task("1".to_string(), TaskOperation::Create, Err("disk full".to_string()));
    assert_eq!(error_of(&r), (INTERNAL_ERROR, "Failed to create task: disk full".to_string()));
    let r = respond_task("1".to_string(), TaskOperation::Send, Err("Task not found".to_string()));
    assert_eq!(error_of(&r), (INTERNAL_ERROR, "Failed to process task: Task not found".to_string()));
    let r = respond_task("1".to_string(), TaskOperation::Cancel, Err("Cannot cancel task in state Completed".to_string()));
    assert_eq!(
        error_of(&r),
        (INTERNAL_ERROR, "Failed to cancel task: Cannot cancel task in state Completed".to_string())
    );
    let r = respond_events("1".to_string(), Err("Task not found".to_string()));
    assert_eq!(error_of(&r), (INTERNAL_ERROR, "Failed to process streaming task: Task not found".to_string()));
    assert_eq!(INTERNAL_ERROR, -32603);
}

#[test]
fn successful_operations_carry_the_result() {
    let mut tm = TaskManager::new(agent());
    let t = tm.create_task(vec![], None);
    let events = tm.process_task_streaming(t.id).unwrap();
    let r = respond_events("e".to_string(), Ok(events));
    assert!(r.error.is_none());
    match r.result {
        Some(RpcResult::Events(v)) => assert_eq!(v.len(), 4),
        _ => panic!("expected events"),
    }
    let r = respond_task("t".to_string(), TaskOperation::Send, Ok(tm.get_task(t.id).unwrap()));
    assert!(matches!(r.result, Some(RpcResult::Task(_))));
}

#[test]
fn response_constructors_set_exactly_one_part() {
    let ok = create_response("5".to_string(), RpcResult::Agent(agent()));
    assert_eq!(ok.jsonrpc, "2.0");
    assert_eq!(ok.id, "5");
    assert!(ok.result.is_some() && ok.error.is_none());
    let err = create_error_response("6".to_string(), -1, "bad".to_string(), Some("{\"k\":1}".to_string()));
    assert_eq!(err.jsonrpc, "2.0");
    assert_eq!(err.id, "6");
    assert!(err.result.is_none());
    let e = err.error.unwrap();
    assert_eq!((e.code, e.message.as_str(), e.data.as_deref()), (-1, "bad", Some("{\"k\":1}")));
}

#[test]
fn completing_a_request_pairs_the_action_with_its_outcome() {
    let r = complete_request("a".to_string(), RequestAction::GetAgentInfo, ActionOutcome::Agent(agent())).unwrap();
    assert!(matches!(r.result, Some(RpcResult::Agent(ref card)) if card.id == 9));
    let r = complete_request(
        "g".to_string(),
        RequestAction::GetTask { task_id: 0x67e5504410b1426f9247bb680e5fe0c8 },
        ActionOutcome::Lookup(Ok(None)),
    )
    .unwrap();
    assert_eq!(r.id, "g");
    assert_eq!(error_of(&r), (TASK_NOT_FOUND, "Task not found: 67e55044-10b1-426f-9247-bb680e5fe0c8".to_string()));
    let r = complete_request(
        "c".to_string(),
        RequestAction::CancelTask { task_id: 1 },
        ActionOutcome::Task(Err("Task not found".to_string())),
    )
    .unwrap();
    assert_eq!(error_of(&r), (INTERNAL_ERROR, "Failed to cancel task: Task not found".to_string()));
    let r = complete_request(
        "s".to_string(),
        RequestAction::SendTaskSubscribe { task_id: 1 },
        ActionOutcome::Events(Err("Task not found".to_string())),
    )
    .unwrap();
    assert_eq!(error_of(&r), (INTERNAL_ERROR, "Failed to process streaming task: Task not found".to_string()));
}

#[test]
fn completing_a_request_with_the_wrong_outcome_gives_nothing() {
    assert!(complete_request("a".to_string(), RequestAction::GetAgentInfo, ActionOutcome::Lookup(Ok(None))).is_none());
    assert!(complete_request(
        "s".to_string(),
        RequestAction::SendTask { task_id: 1 },
        ActionOutcome::Events(Ok(vec![]))
    )
    .is_none());
}

#[test]
fn an_immediate_answer_is_completed_as_it_is() {
    let planned = plan_request(request("tasks/frobnicate", TaskIdParam::Missing, MessagesParam::Missing));
    let r = complete_request("req-1".to_string(), planned, ActionOutcome::Agent(agent())).unwrap();
    assert_eq!(error_of(&r), (METHOD_NOT_FOUND, "Method not found: tasks/frobnicate".to_string()));
}

#[test]
fn a_result_may_be_any_json_value() {
    let r = create_response("7".to_string(), RpcResult::Json("[1,2,3]".to_string()));
    assert_eq!(r.id, "7");
    assert!(r.error.is_none());
    match r.result {
        Some(RpcResult::Json(text)) => assert_eq!(text, "[1,2,3]"),
        _ => panic!("expected the JSON value"),
    }
}
