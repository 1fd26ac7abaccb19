//! How the server answers the A2A protocol's JSON-RPC requests.
//!
//! Answering a request takes two steps around the task manager: `plan_request` reads the
//! method and parameters and either answers at once (an unknown method, a missing or malformed
//! parameter) or names the task manager operation to perform; the `respond_*` functions then
//! turn what the task manager gave back into the response.
use vstd::prelude::*;
use crate::ids::{parse_uuid, uuid_parse_error_text, uuid_parsed, uuid_text, uuid_to_string};
use crate::types::{
    create_error_response, create_response, events_view, failure_view, messages_view, opt_push,
    success_view, AgentCard, JsonRpcRequest, JsonRpcRequestView, JsonRpcResponse,
    JsonRpcResponseView, Message, MessageView, MessagesParam, MessagesParamView,
    PushNotificationConfig, PushNotificationConfigView, RpcResult, RpcResultView, Task,
    AgentCardView,
    TaskIdParam, TaskIdParamView, TaskStreamingEvent, TaskStreamingEventView, TaskView,
};

verus! {

/// JSON-RPC error code: the method does not exist.
pub const METHOD_NOT_FOUND: i32 = -32601;

/// JSON-RPC error code: invalid method parameters.
pub const INVALID_PARAMS: i32 = -32602;

/// JSON-RPC error code: internal error.
pub const INTERNAL_ERROR: i32 = -32603;

/// JSON-RPC error code: the request could not be parsed.
pub const PARSE_ERROR: i32 = -32700;

/// Error code of the protocol: no task has the requested id.
pub const TASK_NOT_FOUND: i32 = -32001;

/// What the server does with a request.
#[derive(Debug)]
pub enum RequestAction {
    /// Answer at once with this response, without consulting the task manager.
    Respond(JsonRpcResponse),
    /// Return the agent card.
    GetAgentInfo,
    /// Create a task with these input messages.
    CreateTask {
        messages: Vec<Message>,
        push_notification_config: Option<PushNotificationConfig>,
    },
    /// Return a task.
    GetTask { task_id: u128 },
    /// Process a task.
    SendTask { task_id: u128 },
    /// Process a task with streaming events.
    SendTaskSubscribe { task_id: u128 },
    /// Cancel a task.
    CancelTask { task_id: u128 },
}

pub enum RequestActionView {
    Respond(JsonRpcResponseView),
    GetAgentInfo,
    CreateTask {
        messages: Seq<MessageView>,
        push_notification_config: Option<PushNotificationConfigView>,
    },
    GetTask { task_id: u128 },
    SendTask { task_id: u128 },
    SendTaskSubscribe { task_id: u128 },
    CancelTask { task_id: u128 },
}

impl View for RequestAction {
    type V = RequestActionView;

    open spec fn view(&self) -> RequestActionView {
        match self {
            RequestAction::Respond(r) => RequestActionView::Respond(r@),
            RequestAction::GetAgentInfo => RequestActionView::GetAgentInfo,
            RequestAction::CreateTask { messages, push_notification_config } => {
                RequestActionView::CreateTask {
                    messages: messages_view(messages@),
                    push_notification_config: opt_push(*push_notification_config),
                }
            },
            RequestAction::GetTask { task_id } => RequestActionView::GetTask { task_id: *task_id },
            RequestAction::SendTask { task_id } => RequestActionView::SendTask { task_id: *task_id },
            RequestAction::SendTaskSubscribe { task_id } => RequestActionView::SendTaskSubscribe {
                task_id: *task_id,
            },
            RequestAction::CancelTask { task_id } => RequestActionView::CancelTask {
                task_id: *task_id,
            },
        }
    }
}

/// The task id a request names, or the error response to a request with id `id` whose
/// `taskId` is missing, not a string, or not a UUID.
pub open spec fn task_id_from(id: Seq<char>, param: TaskIdParamView) -> Result<
    u128,
    JsonRpcResponseView,
> {
    match param {
        TaskIdParamView::Missing => Err(
            failure_view(id, INVALID_PARAMS, "Missing taskId parameter"@, None),
        ),
        TaskIdParamView::NotAString => Err(
            failure_view(id, INVALID_PARAMS, "Invalid taskId parameter, must be a string"@, None),
        ),
        TaskIdParamView::Text(s) => match uuid_parsed(s) {
            Some(v) => Ok(v),
            None => Err(
                failure_view(
                    id,
                    INVALID_PARAMS,
                    "Invalid UUID format: "@ + uuid_parse_error_text(s),
                    None,
                ),
            ),
        },
    }
}

/// The action for a method that works on one task: `make` of the task id, or the error
/// response where the task id cannot be read.
pub open spec fn on_task_id(
    id: Seq<char>,
    param: TaskIdParamView,
    make: spec_fn(u128) -> RequestActionView,
) -> RequestActionView {
    match task_id_from(id, param) {
        Ok(v) => make(v),
        Err(r) => RequestActionView::Respond(r),
    }
}

/// What the server does with a request, by its method:
/// `agents/getInfo`, `tasks/create` (which needs `messages`), and `tasks/get`, `tasks/send`,
/// `tasks/sendSubscribe` and `tasks/cancel` (which need a `taskId` that is a UUID); a missing
/// or malformed parameter is answered with `INVALID_PARAMS`, an unknown method with
/// `METHOD_NOT_FOUND`.
pub open spec fn planned_action(req: JsonRpcRequestView) -> RequestActionView {
    let id = req.id;
    if req.method == "agents/getInfo"@ {
        RequestActionView::GetAgentInfo
    } else if req.method == "tasks/create"@ {
        match req.params.messages {
            MessagesParamView::Missing => RequestActionView::Respond(
                failure_view(id, INVALID_PARAMS, "Missing messages parameter"@, None),
            ),
            MessagesParamView::Invalid(e) => RequestActionView::Respond(
                failure_view(id, INVALID_PARAMS, "Invalid messages parameter: "@ + e, None),
            ),
            MessagesParamView::Valid(messages) => RequestActionView::CreateTask {
                messages,
                push_notification_config: req.params.push_notification_config,
            },
        }
    } else if req.method == "tasks/get"@ {
        on_task_id(id, req.params.task_id, |v: u128| RequestActionView::GetTask { task_id: v })
    } else if req.method == "tasks/send"@ {
        on_task_id(id, req.params.task_id, |v: u128| RequestActionView::SendTask { task_id: v })
    } else if req.method == "tasks/sendSubscribe"@ {
        on_task_id(
            id,
            req.params.task_id,
            |v: u128| RequestActionView::SendTaskSubscribe { task_id: v },
        )
    } else if req.method == "tasks/cancel"@ {
        on_task_id(id, req.params.task_id, |v: u128| RequestActionView::CancelTask { task_id: v })
    } else {
        RequestActionView::Respond(
            failure_view(id, METHOD_NOT_FOUND, "Method not found: "@ + req.method, None),
        )
    }
}

/// Whether `s` is the text `t`.
fn is_text(s: &String, t: &str) -> (r: bool)
    ensures
        r == (s@ == t@),
{
    *s == t.to_string()
}

/// The text `prefix` followed by `rest`.
fn joined(prefix: &str, rest: &str) -> (r: String)
    ensures
        r@ == prefix@ + rest@,
{
    let mut r = prefix.to_string();
    r.append(rest);
    r
}

/// An error response without data.
fn error_response(id: String, code: i32, message: String) -> (r: JsonRpcResponse)
    ensures
        r@ == failure_view(id@, code, message@, None),
{
    create_error_response(id, code, message, None)
}

/// The task id that a request names, or the error response to it.
fn read_task_id(id: &String, param: &TaskIdParam) -> (r: Result<u128, JsonRpcResponse>)
    ensures
        match r {
            Ok(v) => task_id_from(id@, param@) == Ok::<u128, JsonRpcResponseView>(v),
            Err(resp) => task_id_from(id@, param@) == Err::<u128, JsonRpcResponseView>(resp@),
        },
{
    match param {
        TaskIdParam::Missing => Err(
            error_response(id.clone(), INVALID_PARAMS, "Missing taskId parameter".to_string()),
        ),
        TaskIdParam::NotAString => Err(
            error_response(
                id.clone(),
                INVALID_PARAMS,
                "Invalid taskId parameter, must be a string".to_string(),
            ),
        ),
        TaskIdParam::Text(s) => match parse_uuid(s.as_str()) {
            Ok(v) => Ok(v),
            Err(e) => Err(
                error_response(
                    id.clone(),
                    INVALID_PARAMS,
                    joined("Invalid UUID format: ", e.as_str()),
                ),
            ),
        },
    }
}

/// Decides what to do with a request: answer it at once, or perform a task manager operation.
pub fn plan_request(request: JsonRpcRequest) -> (r: RequestAction)
    ensures
        r@ == planned_action(request@),
{
    let ghost req = request@;
    let JsonRpcRequest { jsonrpc: _, id, method, params } = request;
    if is_text(&method, "agents/getInfo") {
        RequestAction::GetAgentInfo
    } else if is_text(&method, "tasks/create") {
        match params.messages {
            MessagesParam::Missing => RequestAction::Respond(
                error_response(id, INVALID_PARAMS, "Missing messages parameter".to_string()),
            ),
            MessagesParam::Invalid(e) => RequestAction::Respond(
                error_response(
                    id,
                    INVALID_PARAMS,
                    joined("Invalid messages parameter: ", e.as_str()),
                ),
            ),
            MessagesParam::Valid(messages) => RequestAction::CreateTask {
                messages,
                push_notification_config: params.push_notification_config,
            },
        }
    } else if is_text(&method, "tasks/get") {
        match read_task_id(&id, &params.task_id) {
            Ok(v) => RequestAction::GetTask { task_id: v },
            Err(resp) => RequestAction::Respond(resp),
        }
    } else if is_text(&method, "tasks/send") {
        match read_task_id(&id, &params.task_id) {
            Ok(v) => RequestAction::SendTask { task_id: v },
            Err(resp) => RequestAction::Respond(resp),
        }
    } else if is_text(&method, "tasks/sendSubscribe") {
        match read_task_id(&id, &params.task_id) {
            Ok(v) => RequestAction::SendTaskSubscribe { task_id: v },
            Err(resp) => RequestAction::Respond(resp),
        }
    } else if is_text(&method, "tasks/cancel") {
        match read_task_id(&id, &params.task_id) {
            Ok(v) => RequestAction::CancelTask { task_id: v },
            Err(resp) => RequestAction::Respond(resp),
        }
    } else {
        RequestAction::Respond(
            error_response(id, METHOD_NOT_FOUND, joined("Method not found: ", method.as_str())),
        )
    }
}

/// The response to `agents/getInfo`: `{"agent": ..}`.
pub fn respond_agent(id: String, agent: AgentCard) -> (r: JsonRpcResponse)
    ensures
        r@ == success_view(id@, RpcResultView::Agent(agent@)),
{
    create_response(id, RpcResult::Agent(agent))
}

/// The operations that answer with one task.
#[derive(Clone, Copy, Debug, PartialEq, Eq, Structural)]
pub enum TaskOperation {
    Create,
    Send,
    Cancel,
}

impl TaskOperation {
    /// How the error response of a failed operation begins.
    pub open spec fn failure_prefix(self) -> Seq<char> {
        match self {
            TaskOperation::Create => "Failed to create task: "@,
            TaskOperation::Send => "Failed to process task: "@,
            TaskOperation::Cancel => "Failed to cancel task: "@,
        }
    }
}

/// The response to an operation that answers with one task: `{"task": ..}`, or, where the task
/// manager failed with the error text `e`, an `INTERNAL_ERROR` naming the operation and `e`.
pub open spec fn task_response_view(
    id: Seq<char>,
    op: TaskOperation,
    outcome: Result<TaskView, Seq<char>>,
) -> JsonRpcResponseView {
    match outcome {
        Ok(t) => success_view(id, RpcResultView::Task(t)),
        Err(e) => failure_view(id, INTERNAL_ERROR, op.failure_prefix() + e, None),
    }
}

/// The response to `tasks/create`, `tasks/send` or `tasks/cancel`.
pub fn respond_task(id: String, op: TaskOperation, outcome: Result<Task, String>) -> (r:
    JsonRpcResponse)
    ensures
        r@ == task_response_view(
            id@,
            op,
            match outcome {
                Ok(t) => Ok(t@),
                Err(e) => Err(e@),
            },
        ),
{
    match outcome {
        Ok(t) => create_response(id, RpcResult::Task(t)),
        Err(e) => {
            let prefix = match op {
                TaskOperation::Create => "Failed to create task: ",
                TaskOperation::Send => "Failed to process task: ",
                TaskOperation::Cancel => "Failed to cancel task: ",
            };
            error_response(id, INTERNAL_ERROR, joined(prefix, e.as_str()))
        },
    }
}

/// The response to `tasks/get` for task `task_id`: `{"task": ..}` where it was found,
/// `TASK_NOT_FOUND` naming the id where it was not, `INTERNAL_ERROR` where the lookup failed
/// with the error text `e`.
pub open spec fn lookup_response_view(
    id: Seq<char>,
    task_id: u128,
    outcome: Result<Option<TaskView>, Seq<char>>,
) -> JsonRpcResponseView {
    match outcome {
        Ok(Some(t)) => success_view(id, RpcResultView::Task(t)),
        Ok(None) => failure_view(id, TASK_NOT_FOUND, "Task not found: "@ + uuid_text(task_id), None),
        Err(e) => failure_view(id, INTERNAL_ERROR, "Failed to get task: "@ + e, None),
    }
}

/// The response to `tasks/get`.
pub fn respond_lookup(id: String, task_id: u128, outcome: Result<Option<Task>, String>) -> (r:
    JsonRpcResponse)
    ensures
        r@ == lookup_response_view(
            id@,
            task_id,
            match outcome {
                Ok(Some(t)) => Ok(Some(t@)),
                Ok(None) => Ok(None),
                Err(e) => Err(e@),
            },
        ),
{
    match outcome {
        Ok(Some(t)) => create_response(id, RpcResult::Task(t)),
        Ok(None) => {
            let text = uuid_to_string(task_id);
            error_response(id, TASK_NOT_FOUND, joined("Task not found: ", text.as_str()))
        },
        Err(e) => error_response(id, INTERNAL_ERROR, joined("Failed to get task: ", e.as_str())),
    }
}

/// The response to `tasks/sendSubscribe`: `{"events": [..]}` with all the events, or, where the
/// task manager failed with the error text `e`, an `INTERNAL_ERROR` that says so.
pub open spec fn events_response_view(
    id: Seq<char>,
    outcome: Result<Seq<TaskStreamingEventView>, Seq<char>>,
) -> JsonRpcResponseView {
    match outcome {
        Ok(events) => success_view(id, RpcResultView::Events(events)),
        Err(e) => failure_view(id, INTERNAL_ERROR, "Failed to process streaming task: "@ + e, None),
    }
}

/// The response to `tasks/sendSubscribe`.
pub fn respond_events(id: String, outcome: Result<Vec<TaskStreamingEvent>, String>) -> (r:
    JsonRpcResponse)
    ensures
        r@ == events_response_view(
            id@,
            match outcome {
                Ok(v) => Ok(events_view(v@)),
                Err(e) => Err(e@),
            },
        ),
{
    match outcome {
        Ok(events) => create_response(id, RpcResult::Events(events)),
        Err(e) => error_response(
            id,
            INTERNAL_ERROR,
            joined("Failed to process streaming task: ", e.as_str()),
        ),
    }
}

/// What the task manager gave back for a planned operation.
#[derive(Debug)]
pub enum ActionOutcome {
    /// The agent card, for `GetAgentInfo`.
    Agent(AgentCard),
    /// The task, or the text of the failure, for `CreateTask`, `SendTask` and `CancelTask`.
    Task(Result<Task, String>),
    /// The task if there is one, or the text of the failure, for `GetTask`.
    Lookup(Result<Option<Task>, String>),
    /// The events, or the text of the failure, for `SendTaskSubscribe`.
    Events(Result<Vec<TaskStreamingEvent>, String>),
}

pub enum ActionOutcomeView {
    Agent(AgentCardView),
    Task(Result<TaskView, Seq<char>>),
    Lookup(Result<Option<TaskView>, Seq<char>>),
    Events(Result<Seq<TaskStreamingEventView>, Seq<char>>),
}

impl View for ActionOutcome {
    type V = ActionOutcomeView;

    open spec fn view(&self) -> ActionOutcomeView {
        match self {
            ActionOutcome::Agent(a) => ActionOutcomeView::Agent(a@),
            ActionOutcome::Task(o) => ActionOutcomeView::Task(
                match o {
                    Ok(t) => Ok(t@),
                    Err(e) => Err(e@),
                },
            ),
            ActionOutcome::Lookup(o) => ActionOutcomeView::Lookup(
                match o {
                    Ok(Some(t)) => Ok(Some(t@)),
                    Ok(None) => Ok(None),
                    Err(e) => Err(e@),
                },
            ),
            ActionOutcome::Events(o) => ActionOutcomeView::Events(
                match o {
                    Ok(v) => Ok(events_view(v@)),
                    Err(e) => Err(e@),
                },
            ),
        }
    }
}

/// The response to request `id` for which `action` was planned and the task manager gave
/// `outcome`: each operation answered by its own response, or `None` where the outcome is not
/// of the kind that the action asks for. An action answered at once keeps its response.
pub open spec fn completed_response(
    id: Seq<char>,
    action: RequestActionView,
    outcome: ActionOutcomeView,
) -> Option<JsonRpcResponseView> {
    match action {
        RequestActionView::Respond(r) => Some(r),
        RequestActionView::GetAgentInfo => match outcome {
            ActionOutcomeView::Agent(a) => Some(success_view(id, RpcResultView::Agent(a))),
            _ => None,
        },
        RequestActionView::CreateTask { .. } => match outcome {
            ActionOutcomeView::Task(o) => Some(task_response_view(id, TaskOperation::Create, o)),
            _ => None,
        },
        RequestActionView::SendTask { .. } => match outcome {
            ActionOutcomeView::Task(o) => Some(task_response_view(id, TaskOperation::Send, o)),
            _ => None,
        },
        RequestActionView::CancelTask { .. } => match outcome {
            ActionOutcomeView::Task(o) => Some(task_response_view(id, TaskOperation::Cancel, o)),
            _ => None,
        },
        RequestActionView::GetTask { task_id } => match outcome {
            ActionOutcomeView::Lookup(o) => Some(lookup_response_view(id, task_id, o)),
            _ => None,
        },
        RequestActionView::SendTaskSubscribe { .. } => match outcome {
            ActionOutcomeView::Events(o) => Some(events_response_view(id, o)),
            _ => None,
        },
    }
}

/// Builds the response to request `id` from the planned action and what the task manager
/// gave for it.
pub fn complete_request(id: String, action: RequestAction, outcome: ActionOutcome) -> (r: Option<
    JsonRpcResponse,
>)
    ensures
        match r {
            Some(resp) => completed_response(id@, action@, outcome@) == Some(resp@),
            None => completed_response(id@, action@, outcome@) is None,
        },
{
    match action {
        RequestAction::Respond(resp) => Some(resp),
        RequestAction::GetAgentInfo => match outcome {
            ActionOutcome::Agent(a) => Some(respond_agent(id, a)),
            _ => None,
        },
        RequestAction::CreateTask { .. } => match outcome {
            ActionOutcome::Task(o) => Some(respond_task(id, TaskOperation::Create, o)),
            _ => None,
        },
        RequestAction::SendTask { .. } => match outcome {
            ActionOutcome::Task(o) => Some(respond_task(id, TaskOperation::Send, o)),
            _ => None,
        },
        RequestAction::CancelTask { .. } => match outcome {
            ActionOutcome::Task(o) => Some(respond_task(id, TaskOperation::Cancel, o)),
            _ => None,
        },
        RequestAction::GetTask { task_id } => match outcome {
            ActionOutcome::Lookup(o) => Some(respond_lookup(id, task_id, o)),
            _ => None,
        },
        RequestAction::SendTaskSubscribe { .. } => match outcome {
            ActionOutcome::Events(o) => Some(respond_events(id, o)),
            _ => None,
        },
    }
}

} // verus!
