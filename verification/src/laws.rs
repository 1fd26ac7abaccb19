//! Properties of the library as a whole, stated over the views that the operations' contracts
//! use, and proved.
use vstd::prelude::*;
use crate::ids::{lemma_uuid_text_injective, uuid_text};
use crate::persistence::{expired, expired_count, task_key_text};
use crate::ids::uuid_parsed;
use crate::server::{
    completed_response, events_response_view, lookup_response_view, planned_action, task_id_from,
    task_response_view, ActionOutcomeView, RequestActionView, TaskOperation, INTERNAL_ERROR,
    INVALID_PARAMS, METHOD_NOT_FOUND, TASK_NOT_FOUND,
};
use crate::task::{
    agent_message_view, assistant_role, new_task_view, replay_events, response_text,
    streaming_events_view, thinking_text,
};
use crate::transport::{replies_view, streaming_method, OutgoingView};
use crate::types::{
    AgentCardView, JsonRpcErrorView, JsonRpcRequestView, JsonRpcResponseView, MessageView,
    MessagesParamView, PushNotificationConfigView, RpcResultView, TaskErrorView, TaskIdParamView,
    TaskState, TaskStreamingEventView, TaskView, Timestamp,
};

verus! {

/// A response of the protocol: version `2.0`, the given id, and exactly one of a result and an
/// error.
pub open spec fn well_formed_response(r: JsonRpcResponseView, id: Seq<char>) -> bool {
    &&& r.jsonrpc == "2.0"@
    &&& r.id == id
    &&& (r.result is Some) != (r.error is Some)
}

/// Different tasks are stored in Redis under different keys.
pub proof fn law_task_keys_distinct(a: u128, b: u128)
    ensures
        a != b ==> task_key_text(a) != task_key_text(b),
{
    if task_key_text(a) == task_key_text(b) {
        reveal_strlit("task:");
        assert(task_key_text(a).subrange(5, 41) =~= uuid_text(a));
        assert(task_key_text(b).subrange(5, 41) =~= uuid_text(b));
        lemma_uuid_text_injective(a, b);
    }
}

/// A cleanup with a longer maximum age, at the same time, deletes only tasks that one with a
/// shorter age deletes too, and so no more of them.
pub proof fn law_longer_age_deletes_fewer(
    now: Timestamp,
    shorter: i64,
    longer: i64,
    shorter_cutoff: Timestamp,
    longer_cutoff: Timestamp,
    created: Seq<Option<Timestamp>>,
)
    requires
        shorter <= longer,
        shorter_cutoff.secs == now.secs - shorter * 86400,
        shorter_cutoff.nanos == now.nanos,
        longer_cutoff.secs == now.secs - longer * 86400,
        longer_cutoff.nanos == now.nanos,
    ensures
        forall|c: Option<Timestamp>|
            #[trigger] expired(c, longer_cutoff) ==> expired(c, shorter_cutoff),
        expired_count(created, longer_cutoff) <= expired_count(created, shorter_cutoff),
    decreases created.len(),
{
    assert(longer * 86400 >= shorter * 86400) by (nonlinear_arith)
        requires
            shorter <= longer,
    ;
    if created.len() > 0 {
        law_longer_age_deletes_fewer(
            now,
            shorter,
            longer,
            shorter_cutoff,
            longer_cutoff,
            created.drop_last(),
        );
    }
}

/// A task that is stored is read back as it was stored, and storing it leaves every other task
/// as it was.
pub proof fn law_read_after_write(tasks: Map<u128, TaskView>, task: TaskView, other: u128)
    ensures
        tasks.insert(task.id, task).contains_key(task.id),
        tasks.insert(task.id, task)[task.id] == task,
        other != task.id ==> (tasks.insert(task.id, task).contains_key(other) == tasks.contains_key(
            other,
        ) && (tasks.contains_key(other) ==> tasks.insert(task.id, task)[other] == tasks[other])),
{
}

/// Changing the state of a task, adding a message to it, applying an event or processing it
/// keeps what identifies the task: its id, its agent, when it was created, and its push
/// notification configuration.
pub proof fn law_updates_keep_identity(
    t: TaskView,
    state: TaskState,
    m: MessageView,
    e: TaskStreamingEventView,
    answer_id: u128,
    at: Timestamp,
    now: Timestamp,
)
    ensures
        ({
            let u = t.with_state(state, None, now);
            u.id == t.id && u.agent_id == t.agent_id && u.created_at == t.created_at
                && u.push_notification_config == t.push_notification_config
        }),
        ({
            let u = t.with_message(m, now);
            u.id == t.id && u.agent_id == t.agent_id && u.created_at == t.created_at
                && u.push_notification_config == t.push_notification_config && u.state == t.state
        }),
        ({
            let u = t.with_event(e, now);
            u.id == t.id && u.agent_id == t.agent_id && u.created_at == t.created_at
                && u.push_notification_config == t.push_notification_config
        }),
        ({
            let u = t.processed(answer_id, at, now);
            u.id == t.id && u.agent_id == t.agent_id && u.created_at == t.created_at
                && u.push_notification_config == t.push_notification_config
        }),
{
}

/// A message of the agent (role `assistant`) is appended to the outputs and leaves the inputs
/// alone; any other message is appended to the inputs and leaves the outputs alone.
pub proof fn law_message_routing(t: TaskView, m: MessageView, now: Timestamp)
    ensures
        m.role == assistant_role() ==> t.with_message(m, now).outputs == t.outputs.push(m)
            && t.with_message(m, now).inputs == t.inputs,
        m.role != assistant_role() ==> t.with_message(m, now).inputs == t.inputs.push(m)
            && t.with_message(m, now).outputs == t.outputs,
        t.with_message(m, now).inputs.len() + t.with_message(m, now).outputs.len() == t.inputs.len()
            + t.outputs.len() + 1,
{
}

/// A processed task is completed, without error, with the agent's simulated answer as its last
/// output and its earlier outputs and its inputs kept; having finished, it can no longer be
/// cancelled.
pub proof fn law_processing_completes(t: TaskView, answer_id: u128, at: Timestamp, now: Timestamp)
    ensures
        ({
            let p = t.processed(answer_id, at, now);
            &&& p.state == TaskState::Completed
            &&& p.error is None
            &&& p.updated_at == Some(now)
            &&& p.inputs == t.inputs
            &&& p.outputs == t.outputs.push(agent_message_view(answer_id, at, response_text()))
            &&& p.state.is_final()
        }),
{
}

/// A task as it is created has not finished: it can be processed or cancelled.
pub proof fn law_new_task_is_open(
    id: u128,
    agent_id: u128,
    now: Timestamp,
    inputs: Seq<MessageView>,
    push: Option<PushNotificationConfigView>,
)
    ensures
        !new_task_view(id, agent_id, now, inputs, push).state.is_final(),
        new_task_view(id, agent_id, now, inputs, push).outputs.len() == 0,
{
}

/// A cancelled task has finished, so cancelling it again is refused.
pub proof fn law_cancel_is_final(t: TaskView, now: Timestamp)
    ensures
        t.with_state(TaskState::Cancelled, None, now).state.is_final(),
{
}

/// The events of streamed processing: four of them, all about the task; the first moves it to
/// `Processing` and the last to `Completed`, and in between come the two messages.
pub proof fn law_streaming_events_shape(task_id: u128, thinking: MessageView, answer: MessageView)
    ensures
        ({
            let ev = streaming_events_view(task_id, thinking, answer);
            &&& ev.len() == 4
            &&& ev[0] matches TaskStreamingEventView::StateChange { state, error, .. } && state
                == TaskState::Processing && error is None
            &&& ev[3] matches TaskStreamingEventView::StateChange { state, error, .. } && state
                == TaskState::Completed && error is None
            &&& ev[1] == (TaskStreamingEventView::MessageAdd {
                event: "message_added"@,
                task_id,
                message: thinking,
            })
            &&& ev[2] == (TaskStreamingEventView::MessageAdd {
                event: "message_added"@,
                task_id,
                message: answer,
            })
            &&& forall|i: int|
                0 <= i < 4 ==> match #[trigger] ev[i] {
                    TaskStreamingEventView::StateChange { task_id: id, .. } => id == task_id,
                    TaskStreamingEventView::MessageAdd { task_id: id, .. } => id == task_id,
                }
        }),
{
}

/// Applying the events of streamed processing to a task, in order and at any times, leaves it
/// completed without error, with both messages of the agent appended to its outputs and its
/// inputs kept.
pub proof fn law_streaming_replay(
    t: TaskView,
    thinking: MessageView,
    answer: MessageView,
    n0: Timestamp,
    n1: Timestamp,
    n2: Timestamp,
    n3: Timestamp,
)
    requires
        thinking.role == assistant_role(),
        answer.role == assistant_role(),
    ensures
        ({
            let ev = streaming_events_view(t.id, thinking, answer);
            let r = t.with_event(ev[0], n0).with_event(ev[1], n1).with_event(ev[2], n2).with_event(
                ev[3],
                n3,
            );
            &&& r.state == TaskState::Completed
            &&& r.error is None
            &&& r.updated_at == Some(n3)
            &&& r.inputs == t.inputs
            &&& r.outputs == t.outputs.push(thinking).push(answer)
        }),
{
}

/// Streamed processing of a stored task, with its events then applied to the stored task in
/// order and at any times, leaves the task completed without error, with the agent's two
/// messages (the thinking message, then the answer) appended to its outputs and its inputs kept.
pub proof fn law_streamed_task_completes(
    t: TaskView,
    task_id: u128,
    at: Timestamp,
    thinking_id: u128,
    thinking_at: Timestamp,
    answer_id: u128,
    answer_at: Timestamp,
    times: Seq<Timestamp>,
)
    requires
        times.len() == 4,
    ensures
        ({
            let thinking = agent_message_view(thinking_id, thinking_at, thinking_text());
            let answer = agent_message_view(answer_id, answer_at, response_text());
            let r = replay_events(
                t.with_state(TaskState::Processing, None, at),
                streaming_events_view(task_id, thinking, answer),
                times,
            );
            &&& r.state == TaskState::Completed
            &&& r.error is None
            &&& r.updated_at == Some(times[3])
            &&& r.inputs == t.inputs
            &&& r.outputs == t.outputs.push(thinking).push(answer)
        }),
{
    let thinking = agent_message_view(thinking_id, thinking_at, thinking_text());
    let answer = agent_message_view(answer_id, answer_at, response_text());
    let ev = streaming_events_view(task_id, thinking, answer);
    let p = t.with_state(TaskState::Processing, None, at);
    assert(ev.drop_last().drop_last().drop_last().drop_last() =~= Seq::empty());
    assert(ev.drop_last().drop_last().drop_last() =~= seq![ev[0]]);
    assert(ev.drop_last().drop_last() =~= seq![ev[0], ev[1]]);
    assert(ev.drop_last() =~= seq![ev[0], ev[1], ev[2]]);
    reveal_with_fuel(replay_events, 5);
    assert(replay_events(p, ev, times) == p.with_event(ev[0], times[0]).with_event(
        ev[1],
        times[1],
    ).with_event(ev[2], times[2]).with_event(ev[3], times[3]));
}

/// A request that is answered at once is answered with an error under its own id: invalid
/// parameters, or an unknown method. Only a method of the protocol goes to the task manager,
/// and an unknown method is always answered with `METHOD_NOT_FOUND`.
pub proof fn law_immediate_answers(req: JsonRpcRequestView)
    ensures
        planned_action(req) matches RequestActionView::Respond(r) ==> {
            &&& well_formed_response(r, req.id)
            &&& r.error->0.code == INVALID_PARAMS || r.error->0.code == METHOD_NOT_FOUND
        },
        !(req.method == "agents/getInfo"@ || req.method == "tasks/create"@ || req.method
            == "tasks/get"@ || req.method == "tasks/send"@ || req.method == streaming_method()
            || req.method == "tasks/cancel"@) ==> (planned_action(req) matches RequestActionView::Respond(
            r,
        ) && r.error->0.code == METHOD_NOT_FOUND),
{
    match task_id_from(req.id, req.params.task_id) {
        Ok(_) => {},
        Err(_) => {},
    }
}

/// Every answer built from what the task manager gave is a well-formed response under the
/// request's id.
pub proof fn law_answers_well_formed(
    id: Seq<char>,
    op: TaskOperation,
    task: Result<TaskView, Seq<char>>,
    task_id: u128,
    found: Result<Option<TaskView>, Seq<char>>,
    events: Result<Seq<TaskStreamingEventView>, Seq<char>>,
)
    ensures
        well_formed_response(task_response_view(id, op, task), id),
        well_formed_response(lookup_response_view(id, task_id, found), id),
        well_formed_response(events_response_view(id, events), id),
{
}

/// The transport sends exactly one response per request, and it is the last thing it sends;
/// before it come only events, and only for a successful `tasks/sendSubscribe`. A handler's
/// failure is answered under the request's id.
pub proof fn law_one_response_last(
    method: Seq<char>,
    request_id: Seq<char>,
    handled: Result<JsonRpcResponseView, Seq<char>>,
    listed_events: Seq<TaskStreamingEventView>,
)
    ensures
        ({
            let out = replies_view(method, request_id, handled, listed_events);
            &&& out.len() >= 1
            &&& out.last() is Response
            &&& forall|i: int| 0 <= i < out.len() - 1 ==> #[trigger] out[i] is Event
            &&& (method != streaming_method() ==> out.len() == 1)
            &&& (handled is Err ==> out.len() == 1 && (out[0] matches OutgoingView::Response(r)
                && r.id == request_id))
            &&& (handled matches Ok(resp) ==> out.last() == OutgoingView::Response(resp))
        }),
{
}

/// The successful answer to request `id` carrying `result`.
pub open spec fn answered_with(id: Seq<char>, result: RpcResultView) -> JsonRpcResponseView {
    JsonRpcResponseView { jsonrpc: "2.0"@, id, result: Some(result), error: None }
}

/// The error answer to request `id` with `code` and `message`, without data.
pub open spec fn refused_with(id: Seq<char>, code: i32, message: Seq<char>) -> JsonRpcResponseView {
    JsonRpcResponseView {
        jsonrpc: "2.0"@,
        id,
        result: None,
        error: Some(JsonRpcErrorView { code, message, data: None }),
    }
}

/// A successful `tasks/sendSubscribe` answer is preceded by every event it carries, each once
/// and in order: the events of an `Events` result, or, for a result given as JSON text, the
/// events that the text lists. Nothing else is sent but the answer, last.
pub proof fn law_streamed_replies_carry_every_event(
    request_id: Seq<char>,
    resp: JsonRpcResponseView,
    listed: Seq<TaskStreamingEventView>,
)
    requires
        resp.error is None,
    ensures
        resp.result matches Some(RpcResultView::Events(events)) ==> {
            let out = replies_view("tasks/sendSubscribe"@, request_id, Ok(resp), listed);
            &&& out.len() == events.len() + 1
            &&& forall|i: int| 0 <= i < events.len() ==> #[trigger] out[i] == OutgoingView::Event(events[i])
            &&& out[events.len() as int] == OutgoingView::Response(resp)
        },
        resp.result matches Some(RpcResultView::Json(_)) ==> {
            let out = replies_view("tasks/sendSubscribe"@, request_id, Ok(resp), listed);
            &&& out.len() == listed.len() + 1
            &&& forall|i: int| 0 <= i < listed.len() ==> #[trigger] out[i] == OutgoingView::Event(listed[i])
            &&& out[listed.len() as int] == OutgoingView::Response(resp)
        },
{
}

/// Every task manager operation is answered from its own outcome, under the request's id: a
/// task it gave back as the result, a missing task as `TASK_NOT_FOUND`, and its failure as an
/// `INTERNAL_ERROR` naming the operation. An answer is always there.
pub proof fn law_operations_are_answered_from_their_outcome(
    id: Seq<char>,
    messages: Seq<MessageView>,
    push: Option<PushNotificationConfigView>,
    task_id: u128,
    t: TaskView,
    e: Seq<char>,
    agent: AgentCardView,
    events: Seq<TaskStreamingEventView>,
)
    ensures
        completed_response(
            id,
            RequestActionView::CreateTask { messages, push_notification_config: push },
            ActionOutcomeView::Task(Ok(t)),
        ) == Some(answered_with(id, RpcResultView::Task(t))),
        completed_response(id, RequestActionView::SendTask { task_id }, ActionOutcomeView::Task(Ok(t)))
            == Some(answered_with(id, RpcResultView::Task(t))),
        completed_response(id, RequestActionView::CancelTask { task_id }, ActionOutcomeView::Task(Ok(t)))
            == Some(answered_with(id, RpcResultView::Task(t))),
        completed_response(id, RequestActionView::GetTask { task_id }, ActionOutcomeView::Lookup(Ok(Some(t))))
            == Some(answered_with(id, RpcResultView::Task(t))),
        completed_response(id, RequestActionView::GetAgentInfo, ActionOutcomeView::Agent(agent)) == Some(
            answered_with(id, RpcResultView::Agent(agent)),
        ),
        completed_response(
            id,
            RequestActionView::SendTaskSubscribe { task_id },
            ActionOutcomeView::Events(Ok(events)),
        ) == Some(answered_with(id, RpcResultView::Events(events))),
        completed_response(
            id,
            RequestActionView::CreateTask { messages, push_notification_config: push },
            ActionOutcomeView::Task(Err(e)),
        ) == Some(refused_with(id, INTERNAL_ERROR, "Failed to create task: "@ + e)),
        completed_response(id, RequestActionView::SendTask { task_id }, ActionOutcomeView::Task(Err(e)))
            == Some(refused_with(id, INTERNAL_ERROR, "Failed to process task: "@ + e)),
        completed_response(id, RequestActionView::CancelTask { task_id }, ActionOutcomeView::Task(Err(e)))
            == Some(refused_with(id, INTERNAL_ERROR, "Failed to cancel task: "@ + e)),
        completed_response(id, RequestActionView::GetTask { task_id }, ActionOutcomeView::Lookup(Ok(None)))
            == Some(refused_with(id, TASK_NOT_FOUND, "Task not found: "@ + uuid_text(task_id))),
        completed_response(id, RequestActionView::GetTask { task_id }, ActionOutcomeView::Lookup(Err(e)))
            == Some(refused_with(id, INTERNAL_ERROR, "Failed to get task: "@ + e)),
        completed_response(
            id,
            RequestActionView::SendTaskSubscribe { task_id },
            ActionOutcomeView::Events(Err(e)),
        ) == Some(refused_with(id, INTERNAL_ERROR, "Failed to process streaming task: "@ + e)),
{
}

/// Changing the state of a task sets its state, error and update time, and keeps everything
/// else: its id, agent, creation time, input and output messages, and push notification
/// configuration. In particular cancelling a task keeps its messages.
pub proof fn law_state_change_keeps_contents(
    t: TaskView,
    state: TaskState,
    error: Option<TaskErrorView>,
    now: Timestamp,
)
    ensures
        ({
            let u = t.with_state(state, error, now);
            &&& u.state == state
            &&& u.error == error
            &&& u.updated_at == Some(now)
            &&& u.id == t.id
            &&& u.agent_id == t.agent_id
            &&& u.created_at == t.created_at
            &&& u.inputs == t.inputs
            &&& u.outputs == t.outputs
            &&& u.push_notification_config == t.push_notification_config
        }),
{
}

/// A well-formed request is planned as the operation its method names, on exactly what the
/// request carries: `tasks/create` with its messages and its push notification configuration,
/// and the operations on one task with the task whose id the request gives.
pub proof fn law_plans_carry_the_request(req: JsonRpcRequestView, s: Seq<char>)
    ensures
        req.method == "agents/getInfo"@ ==> planned_action(req) == RequestActionView::GetAgentInfo,
        req.method == "tasks/create"@ ==> (req.params.messages matches MessagesParamView::Valid(ms)
            ==> planned_action(req) == (RequestActionView::CreateTask {
            messages: ms,
            push_notification_config: req.params.push_notification_config,
        })),
        req.params.task_id == TaskIdParamView::Text(s) && uuid_parsed(s) is Some ==> {
            let v = uuid_parsed(s)->0;
            &&& req.method == "tasks/get"@ ==> planned_action(req) == (RequestActionView::GetTask {
                task_id: v,
            })
            &&& req.method == "tasks/send"@ ==> planned_action(req) == (RequestActionView::SendTask {
                task_id: v,
            })
            &&& req.method == "tasks/sendSubscribe"@ ==> planned_action(req) == (
            RequestActionView::SendTaskSubscribe { task_id: v })
            &&& req.method == "tasks/cancel"@ ==> planned_action(req) == (
            RequestActionView::CancelTask { task_id: v })
        },
{
    reveal_strlit("agents/getInfo");
    reveal_strlit("tasks/create");
    reveal_strlit("tasks/get");
    reveal_strlit("tasks/send");
    reveal_strlit("tasks/sendSubscribe");
    reveal_strlit("tasks/cancel");
    if req.params.task_id == TaskIdParamView::Text(s) && uuid_parsed(s) is Some {
        let v = uuid_parsed(s)->0;
        assert(task_id_from(req.id, req.params.task_id) == Ok::<u128, JsonRpcResponseView>(v));
        assert(("tasks/cancel"@)[7] != ("tasks/create"@)[7]);
    }
}

} // verus!
