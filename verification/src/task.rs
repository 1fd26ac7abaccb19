//! What happens to a single task: creation, state changes, new messages, cancellation,
//! and the simulated processing that the framework's task managers perform.
use vstd::prelude::*;
use crate::clock::now;
use crate::ids::new_uuid;
use crate::types::{
    events_view, messages_view, opt_error, opt_push, Message, MessageView, Part, PartView,
    PushNotificationConfig, PushNotificationConfigView, Task, TaskError, TaskErrorView, TaskState,
    TaskStreamingEvent, TaskStreamingEventView, TaskView, Timestamp,
};

verus! {

/// The text of the simulated answer that processing adds to a task.
pub open spec fn response_text() -> Seq<char> {
    "This is a simulated response from the agent."@
}

/// The text of the simulated intermediate message that streamed processing emits.
pub open spec fn thinking_text() -> Seq<char> {
    "I'm thinking about this..."@
}

/// The role of the messages that the agent writes; they go to a task's outputs.
pub open spec fn assistant_role() -> Seq<char> {
    "assistant"@
}

/// A message of the agent with the given id, time and single text part.
pub open spec fn agent_message_view(id: u128, at: Timestamp, text: Seq<char>) -> MessageView {
    MessageView {
        id,
        created_at: at,
        role: assistant_role(),
        parts: seq![PartView::Text { text }],
    }
}

/// A task as it is created: in state `Created`, with the given inputs, no outputs and no error,
/// created and last updated at `now`.
pub open spec fn new_task_view(
    id: u128,
    agent_id: u128,
    now: Timestamp,
    inputs: Seq<MessageView>,
    push_notification_config: Option<PushNotificationConfigView>,
) -> TaskView {
    TaskView {
        id,
        agent_id,
        created_at: now,
        updated_at: Some(now),
        state: TaskState::Created,
        inputs,
        outputs: Seq::empty(),
        error: None,
        push_notification_config,
    }
}

impl TaskView {
    /// The task moved to `state` with `error`, updated at `now`; all else kept.
    pub open spec fn with_state(
        self,
        state: TaskState,
        error: Option<TaskErrorView>,
        now: Timestamp,
    ) -> TaskView {
        TaskView { state, error, updated_at: Some(now), ..self }
    }

    /// The task with `message` appended, updated at `now`: a message of the agent
    /// (role `assistant`) goes to the outputs, any other to the inputs.
    pub open spec fn with_message(self, message: MessageView, now: Timestamp) -> TaskView {
        if message.role == assistant_role() {
            TaskView { outputs: self.outputs.push(message), updated_at: Some(now), ..self }
        } else {
            TaskView { inputs: self.inputs.push(message), updated_at: Some(now), ..self }
        }
    }

    /// The task after a streaming event is applied at `now`: a state change sets state and
    /// error, a new message is appended.
    pub open spec fn with_event(self, event: TaskStreamingEventView, now: Timestamp) -> TaskView {
        match event {
            TaskStreamingEventView::StateChange { state, error, .. } => self.with_state(
                state,
                error,
                now,
            ),
            TaskStreamingEventView::MessageAdd { message, .. } => self.with_message(message, now),
        }
    }

    /// The task after simulated processing: the agent's answer (id `answer_id`, written at
    /// `answer_at`) appended to the outputs, then the task completed without error at `now`.
    pub open spec fn processed(self, answer_id: u128, answer_at: Timestamp, now: Timestamp) -> TaskView {
        self.with_message(agent_message_view(answer_id, answer_at, response_text()), answer_at).with_state(
            TaskState::Completed,
            None,
            now,
        )
    }
}

/// The task after `events` are applied in order, the `i`-th at time `times[i]`.
pub open spec fn replay_events(
    t: TaskView,
    events: Seq<TaskStreamingEventView>,
    times: Seq<Timestamp>,
) -> TaskView
    decreases events.len(),
{
    if events.len() == 0 {
        t
    } else {
        replay_events(t, events.drop_last(), times.drop_last()).with_event(
            events.last(),
            times.last(),
        )
    }
}

/// The events that streamed processing of task `task_id` emits, in order: the task enters
/// `Processing`, the agent says it is thinking, the agent answers, the task is `Completed`.
pub open spec fn streaming_events_view(
    task_id: u128,
    thinking: MessageView,
    answer: MessageView,
) -> Seq<TaskStreamingEventView> {
    seq![
        TaskStreamingEventView::StateChange {
            event: "task_state_changed"@,
            task_id,
            state: TaskState::Processing,
            error: None,
        },
        TaskStreamingEventView::MessageAdd { event: "message_added"@, task_id, message: thinking },
        TaskStreamingEventView::MessageAdd { event: "message_added"@, task_id, message: answer },
        TaskStreamingEventView::StateChange {
            event: "task_state_changed"@,
            task_id,
            state: TaskState::Completed,
            error: None,
        },
    ]
}

/// Why an operation on the tasks of an agent was refused.
#[derive(Clone, Copy, Debug, PartialEq, Eq, Structural)]
pub enum TaskManagerError {
    /// No task has the given id.
    TaskNotFound,
    /// The task is in this state, which has finished, so it cannot be cancelled.
    CannotCancel(TaskState),
}

impl TaskManagerError {
    /// The error's text.
    pub open spec fn text(self) -> Seq<char> {
        match self {
            TaskManagerError::TaskNotFound => "Task not found"@,
            TaskManagerError::CannotCancel(s) => "Cannot cancel task in state "@ + s.debug_name(),
        }
    }

    /// The error's text: `Task not found`, or `Cannot cancel task in state ` and the state.
    pub fn message(&self) -> (r: String)
        ensures
            r@ == self.text(),
    {
        match self {
            TaskManagerError::TaskNotFound => "Task not found".to_string(),
            TaskManagerError::CannotCancel(s) => {
                let mut m = "Cannot cancel task in state ".to_string();
                let name = s.name();
                m.append(name.as_str());
                m
            },
        }
    }
}

/// Whether a task in `state` may be cancelled: only one that has not finished.
pub fn check_cancellable(state: TaskState) -> (r: Result<(), TaskManagerError>)
    ensures
        r is Ok <==> !state.is_final(),
        r is Err ==> r == Err::<(), TaskManagerError>(TaskManagerError::CannotCancel(state)),
{
    if state.is_terminal() {
        Err(TaskManagerError::CannotCancel(state))
    } else {
        Ok(())
    }
}

/// A new task of agent `agent_id` with id `id`, created at `now`.
pub fn new_task(
    id: u128,
    agent_id: u128,
    now: Timestamp,
    inputs: Vec<Message>,
    push_notification_config: Option<PushNotificationConfig>,
) -> (r: Task)
    ensures
        r@ == new_task_view(
            id,
            agent_id,
            now,
            messages_view(inputs@),
            opt_push(push_notification_config),
        ),
{
    let r = Task {
        id,
        agent_id,
        created_at: now,
        updated_at: Some(now),
        state: TaskState::Created,
        inputs,
        outputs: Vec::new(),
        error: None,
        push_notification_config,
    };
    assert(messages_view(r.outputs@) =~= Seq::<MessageView>::empty());
    r
}

/// A new task of agent `agent_id`, with a fresh random id, created now.
pub fn fresh_task(
    agent_id: u128,
    inputs: Vec<Message>,
    push_notification_config: Option<PushNotificationConfig>,
) -> (r: Task)
    ensures
        r@ == new_task_view(
            r.id,
            agent_id,
            r.created_at,
            messages_view(inputs@),
            opt_push(push_notification_config),
        ),
{
    let id = new_uuid();
    let t = now();
    new_task(id, agent_id, t, inputs, push_notification_config)
}

/// A message of the agent with the given id, time and single text part.
pub fn agent_message(id: u128, at: Timestamp, text: &str) -> (r: Message)
    ensures
        r@ == agent_message_view(id, at, text@),
{
    let mut parts: Vec<Part> = Vec::new();
    parts.push(Part::Text { text: text.to_string() });
    let r = Message { id, created_at: at, role: "assistant".to_string(), parts };
    assert(r@.parts =~= seq![PartView::Text { text: text@ }]);
    r
}

/// The simulated answer of the agent, with the given id and time.
pub fn answer_message(id: u128, at: Timestamp) -> (r: Message)
    ensures
        r@ == agent_message_view(id, at, response_text()),
{
    agent_message(id, at, "This is a simulated response from the agent.")
}

/// The simulated intermediate message of the agent, with the given id and time.
pub fn thinking_message(id: u128, at: Timestamp) -> (r: Message)
    ensures
        r@ == agent_message_view(id, at, thinking_text()),
{
    agent_message(id, at, "I'm thinking about this...")
}

/// The simulated answer of the agent, with a fresh random id, written now.
pub fn fresh_answer_message() -> (r: Message)
    ensures
        r@ == agent_message_view(r.id, r.created_at, response_text()),
{
    let id = new_uuid();
    let at = now();
    answer_message(id, at)
}

/// The events of streamed processing of task `task_id`, with the given messages.
pub fn streaming_events(task_id: u128, thinking: Message, answer: Message) -> (r: Vec<
    TaskStreamingEvent,
>)
    ensures
        events_view(r@) == streaming_events_view(task_id, thinking@, answer@),
{
    let mut r: Vec<TaskStreamingEvent> = Vec::new();
    r.push(
        TaskStreamingEvent::StateChange {
            event: "task_state_changed".to_string(),
            task_id,
            state: TaskState::Processing,
            error: None,
        },
    );
    r.push(
        TaskStreamingEvent::MessageAdd {
            event: "message_added".to_string(),
            task_id,
            message: thinking,
        },
    );
    r.push(
        TaskStreamingEvent::MessageAdd {
            event: "message_added".to_string(),
            task_id,
            message: answer,
        },
    );
    r.push(
        TaskStreamingEvent::StateChange {
            event: "task_state_changed".to_string(),
            task_id,
            state: TaskState::Completed,
            error: None,
        },
    );
    assert(events_view(r@) =~= streaming_events_view(task_id, thinking@, answer@));
    r
}

/// The events of streamed processing of task `task_id`, with the thinking message and the answer
/// given fresh random ids and written now (the thinking message first).
pub fn fresh_streaming_events(task_id: u128) -> (r: Vec<TaskStreamingEvent>)
    ensures
        exists|thinking_id: u128, thinking_at: Timestamp, answer_id: u128, answer_at: Timestamp|
            events_view(r@) == streaming_events_view(
                task_id,
                agent_message_view(thinking_id, thinking_at, thinking_text()),
                agent_message_view(answer_id, answer_at, response_text()),
            ),
{
    let thinking_id = new_uuid();
    let thinking_at = now();
    let thinking = thinking_message(thinking_id, thinking_at);
    let answer_id = new_uuid();
    let answer_at = now();
    let answer = answer_message(answer_id, answer_at);
    streaming_events(task_id, thinking, answer)
}

impl Task {
    /// Moves the task to `state` with `error`, updated at `now`.
    pub fn set_state_at(&mut self, state: TaskState, error: Option<TaskError>, now: Timestamp)
        ensures
            final(self)@ == old(self)@.with_state(state, opt_error(error), now),
    {
        self.state = state;
        self.error = error;
        self.updated_at = Some(now);
    }

    /// Moves the task to `state` with `error`, updated now.
    pub fn set_state(&mut self, state: TaskState, error: Option<TaskError>)
        ensures
            final(self).updated_at is Some,
            final(self)@ == old(self)@.with_state(
                state,
                opt_error(error),
                final(self).updated_at->0,
            ),
    {
        let t = now();
        self.set_state_at(state, error, t);
    }

    /// Appends `message`, updated at `now`: to the outputs if its role is `assistant`, else to
    /// the inputs.
    pub fn push_message_at(&mut self, message: Message, now: Timestamp)
        ensures
            final(self)@ == old(self)@.with_message(message@, now),
    {
        let ghost m = message@;
        let assistant = "assistant".to_string();
        if message.role == assistant {
            self.outputs.push(message);
            assert(messages_view(self.outputs@) =~= messages_view(old(self).outputs@).push(m));
        } else {
            self.inputs.push(message);
            assert(messages_view(self.inputs@) =~= messages_view(old(self).inputs@).push(m));
        }
        self.updated_at = Some(now);
    }

    /// Appends `message` as `push_message_at` does, updated now.
    pub fn push_message(&mut self, message: Message)
        ensures
            final(self).updated_at is Some,
            final(self)@ == old(self)@.with_message(message@, final(self).updated_at->0),
    {
        let t = now();
        self.push_message_at(message, t);
    }

    /// Applies a streaming event at `now`: a state change sets state and error, a new message
    /// is appended.
    pub fn apply_event_at(&mut self, event: &TaskStreamingEvent, now: Timestamp)
        ensures
            final(self)@ == old(self)@.with_event(event@, now),
    {
        match event {
            TaskStreamingEvent::StateChange { state, error, .. } => {
                let e = match error {
                    Some(e) => Some(e.clone()),
                    None => None,
                };
                self.set_state_at(*state, e, now);
            },
            TaskStreamingEvent::MessageAdd { message, .. } => {
                self.push_message_at(message.clone(), now);
            },
        }
    }

    /// Applies a streaming event as `apply_event_at` does, updated now.
    pub fn apply_event(&mut self, event: &TaskStreamingEvent)
        ensures
            final(self).updated_at is Some,
            final(self)@ == old(self)@.with_event(event@, final(self).updated_at->0),
    {
        let t = now();
        self.apply_event_at(event, t);
    }
}

} // verus!
