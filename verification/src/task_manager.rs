//! The in-memory task manager: the tasks of one agent, kept in a map from task id to task.
use std::collections::HashMap;
use vstd::prelude::*;
use crate::clock::now;
use crate::task::{
    agent_message_view, check_cancellable, fresh_answer_message, fresh_streaming_events,
    fresh_task, new_task, new_task_view, replay_events, response_text, streaming_events_view,
    thinking_text,
    TaskManagerError,
};
use crate::types::{
    events_view, messages_view, opt_error, opt_push, AgentCard, Message, PushNotificationConfig,
    Task, TaskError, TaskState, TaskStreamingEvent, TaskStreamingEventView, TaskView, Timestamp,
};

verus! {

broadcast use vstd::std_specs::hash::group_hash_axioms;

/// Every task of the map is stored under its own id.
pub open spec fn stored_under_own_id(m: Map<u128, TaskView>) -> bool {
    forall|k: u128| #[trigger] m.contains_key(k) ==> m[k].id == k
}

/// Manager for handling tasks, kept in memory.
pub struct TaskManager {
    tasks: HashMap<u128, Task>,
    agent: AgentCard,
}

impl View for TaskManager {
    type V = Map<u128, TaskView>;

    /// The tasks, by id.
    closed spec fn view(&self) -> Map<u128, TaskView> {
        self.tasks@.map_values(|t: Task| t@)
    }
}

impl TaskManager {
    #[verifier::type_invariant]
    spec fn ids_match(self) -> bool {
        forall|k: u128| #[trigger] self.tasks@.contains_key(k) ==> self.tasks@[k].id == k
    }

    /// The agent whose tasks these are.
    pub closed spec fn agent_card(&self) -> AgentCard {
        self.agent
    }

    /// Create a new TaskManager.
    pub fn new(agent: AgentCard) -> (r: Self)
        ensures
            r@ == Map::<u128, TaskView>::empty(),
            r.agent_card() == agent,
    {
        let r = TaskManager { tasks: HashMap::new(), agent };
        assert(r@ =~= Map::<u128, TaskView>::empty());
        r
    }

    /// Get the agent card.
    pub fn agent(&self) -> (r: &AgentCard)
        ensures
            *r == self.agent_card(),
    {
        &self.agent
    }

    /// Get a task by ID.
    pub fn get_task(&self, task_id: u128) -> (r: Option<Task>)
        ensures
            match r {
                Some(t) => self@.contains_key(task_id) && t@ == self@[task_id] && t.id == task_id,
                None => !self@.contains_key(task_id),
            },
            stored_under_own_id(self@),
    {
        proof {
            use_type_invariant(self);
        }
        match self.tasks.get(&task_id) {
            Some(t) => Some(t.clone()),
            None => None,
        }
    }

    /// Stores `task` under its id, replacing what was there.
    fn store(&mut self, task: &Task)
        ensures
            final(self)@ == old(self)@.insert(task.id, task@),
            final(self).agent == old(self).agent,
    {
        proof {
            use_type_invariant(&*self);
        }
        let mut tasks = HashMap::new();
        std::mem::swap(&mut tasks, &mut self.tasks);
        let ghost before = tasks@;
        tasks.insert(task.id, task.clone());
        assert(tasks@.map_values(|t: Task| t@) =~= before.map_values(|t: Task| t@).insert(
            task.id,
            task@,
        ));
        self.tasks = tasks;
    }

    /// Create a new task with the given id, created at `now`.
    pub fn create_task_at(
        &mut self,
        task_id: u128,
        now: Timestamp,
        inputs: Vec<Message>,
        push_notification_config: Option<PushNotificationConfig>,
    ) -> (r: Task)
        ensures
            r.id == task_id,
            r@ == new_task_view(
                task_id,
                old(self).agent_card().id,
                now,
                messages_view(inputs@),
                opt_push(push_notification_config),
            ),
            final(self)@ == old(self)@.insert(task_id, r@),
            final(self).agent_card() == old(self).agent_card(),
    {
        let task = new_task(task_id, self.agent.id, now, inputs, push_notification_config);
        self.store(&task);
        task
    }

    /// Create a new task, with a fresh random id, created now.
    pub fn create_task(
        &mut self,
        inputs: Vec<Message>,
        push_notification_config: Option<PushNotificationConfig>,
    ) -> (r: Task)
        ensures
            r@ == new_task_view(
                r.id,
                old(self).agent_card().id,
                r.created_at,
                messages_view(inputs@),
                opt_push(push_notification_config),
            ),
            final(self)@ == old(self)@.insert(r.id, r@),
            final(self).agent_card() == old(self).agent_card(),
    {
        let task = fresh_task(self.agent.id, inputs, push_notification_config);
        self.store(&task);
        task
    }

    /// Update a task's state and error, updated at `now`.
    pub fn update_task_at(
        &mut self,
        task_id: u128,
        state: TaskState,
        error: Option<TaskError>,
        now: Timestamp,
    ) -> (r: Result<Task, TaskManagerError>)
        ensures
            final(self).agent_card() == old(self).agent_card(),
            match r {
                Ok(t) => {
                    &&& old(self)@.contains_key(task_id)
                    &&& t@ == old(self)@[task_id].with_state(state, opt_error(error), now)
                    &&& final(self)@ == old(self)@.insert(task_id, t@)
                },
                Err(e) => {
                    &&& !old(self)@.contains_key(task_id)
                    &&& e == TaskManagerError::TaskNotFound
                    &&& final(self)@ == old(self)@
                },
            },
    {
        proof {
            use_type_invariant(&*self);
        }
        match self.tasks.get(&task_id) {
            None => Err(TaskManagerError::TaskNotFound),
            Some(current) => {
                let mut task = current.clone();
                task.set_state_at(state, error, now);
                self.store(&task);
                Ok(task)
            },
        }
    }

    /// Update a task's state and error, updated now.
    pub fn update_task(&mut self, task_id: u128, state: TaskState, error: Option<TaskError>) -> (r:
        Result<Task, TaskManagerError>)
        ensures
            final(self).agent_card() == old(self).agent_card(),
            match r {
                Ok(t) => {
                    &&& old(self)@.contains_key(task_id)
                    &&& t.updated_at is Some
                    &&& t@ == old(self)@[task_id].with_state(
                        state,
                        opt_error(error),
                        t.updated_at->0,
                    )
                    &&& final(self)@ == old(self)@.insert(task_id, t@)
                },
                Err(e) => {
                    &&& !old(self)@.contains_key(task_id)
                    &&& e == TaskManagerError::TaskNotFound
                    &&& final(self)@ == old(self)@
                },
            },
    {
        let t = now();
        self.update_task_at(task_id, state, error, t)
    }

    /// Add a message to a task, updated at `now`.
    pub fn add_message_at(&mut self, task_id: u128, message: Message, now: Timestamp) -> (r: Result<
        Task,
        TaskManagerError,
    >)
        ensures
            final(self).agent_card() == old(self).agent_card(),
            match r {
                Ok(t) => {
                    &&& old(self)@.contains_key(task_id)
                    &&& t@ == old(self)@[task_id].with_message(message@, now)
                    &&& final(self)@ == old(self)@.insert(task_id, t@)
                },
                Err(e) => {
                    &&& !old(self)@.contains_key(task_id)
                    &&& e == TaskManagerError::TaskNotFound
                    &&& final(self)@ == old(self)@
                },
            },
    {
        proof {
            use_type_invariant(&*self);
        }
        match self.tasks.get(&task_id) {
            None => Err(TaskManagerError::TaskNotFound),
            Some(current) => {
                let mut task = current.clone();
                task.push_message_at(message, now);
                self.store(&task);
                Ok(task)
            },
        }
    }

    /// Add a message to a task, updated now.
    pub fn add_message(&mut self, task_id: u128, message: Message) -> (r: Result<
        Task,
        TaskManagerError,
    >)
        ensures
            final(self).agent_card() == old(self).agent_card(),
            match r {
                Ok(t) => {
                    &&& old(self)@.contains_key(task_id)
                    &&& t.updated_at is Some
                    &&& t@ == old(self)@[task_id].with_message(message@, t.updated_at->0)
                    &&& final(self)@ == old(self)@.insert(task_id, t@)
                },
                Err(e) => {
                    &&& !old(self)@.contains_key(task_id)
                    &&& e == TaskManagerError::TaskNotFound
                    &&& final(self)@ == old(self)@
                },
            },
    {
        let t = now();
        self.add_message_at(task_id, message, t)
    }

    /// The second half of processing a task: the agent's simulated answer is added, then the
    /// task is completed.
    pub fn complete_processing(&mut self, task_id: u128) -> (r: Result<Task, TaskManagerError>)
        ensures
            final(self).agent_card() == old(self).agent_card(),
            match r {
                Ok(t) => {
                    &&& old(self)@.contains_key(task_id)
                    &&& t.updated_at is Some
                    &&& t@.outputs.len() > 0
                    &&& t@ == old(self)@[task_id].processed(
                        t@.outputs.last().id,
                        t@.outputs.last().created_at,
                        t.updated_at->0,
                    )
                    &&& final(self)@ == old(self)@.insert(task_id, t@)
                },
                Err(e) => {
                    &&& !old(self)@.contains_key(task_id)
                    &&& e == TaskManagerError::TaskNotFound
                    &&& final(self)@ == old(self)@
                },
            },
    {
        let answer = fresh_answer_message();
        let ghost a = answer@;
        let added = self.add_message(task_id, answer);
        match added {
            Err(e) => Err(e),
            Ok(_) => {
                let done = self.update_task(task_id, TaskState::Completed, None);
                match done {
                    Ok(t) => {
                        assert(t@.outputs.last() == a);
                        Ok(t)
                    },
                    Err(e) => Err(e),
                }
            },
        }
    }

    /// Process a task (simulated): the task enters `Processing`, the agent's simulated answer
    /// is added, and the task is completed.
    pub fn process_task(&mut self, task_id: u128) -> (r: Result<Task, TaskManagerError>)
        ensures
            final(self).agent_card() == old(self).agent_card(),
            match r {
                Ok(t) => {
                    &&& old(self)@.contains_key(task_id)
                    &&& t.updated_at is Some
                    &&& t@.outputs.len() > 0
                    &&& t@ == old(self)@[task_id].processed(
                        t@.outputs.last().id,
                        t@.outputs.last().created_at,
                        t.updated_at->0,
                    )
                    &&& final(self)@ == old(self)@.insert(task_id, t@)
                },
                Err(e) => {
                    &&& !old(self)@.contains_key(task_id)
                    &&& e == TaskManagerError::TaskNotFound
                    &&& final(self)@ == old(self)@
                },
            },
    {
        let started = self.update_task(task_id, TaskState::Processing, None);
        match started {
            Err(e) => Err(e),
            Ok(_) => {
                let ghost mid = self@;
                let r = self.complete_processing(task_id);
                proof {
                    if r is Ok {
                        let t = r->Ok_0;
                        assert(old(self)@[task_id].processed(
                            t@.outputs.last().id,
                            t@.outputs.last().created_at,
                            t.updated_at->0,
                        ) =~= mid[task_id].processed(
                            t@.outputs.last().id,
                            t@.outputs.last().created_at,
                            t.updated_at->0,
                        ));
                        assert(final(self)@ =~= old(self)@.insert(task_id, t@));
                    }
                }
                r
            },
        }
    }

    /// Process a task with streaming events: the task enters `Processing` and the events of
    /// simulated processing are returned, with fresh message ids, written now. As each event is
    /// delivered it is applied to the stored task (`apply_event`, or `apply_events` for all of
    /// them), which leaves the task completed with the agent's two messages
    /// (`law_streamed_task_completes`).
    pub fn process_task_streaming(&mut self, task_id: u128) -> (r: Result<
        Vec<TaskStreamingEvent>,
        TaskManagerError,
    >)
        ensures
            final(self).agent_card() == old(self).agent_card(),
            match r {
                Ok(events) => {
                    &&& old(self)@.contains_key(task_id)
                    &&& exists|at: Timestamp|
                        final(self)@ == old(self)@.insert(
                            task_id,
                            #[trigger] old(self)@[task_id].with_state(TaskState::Processing, None, at),
                        )
                    &&& exists|
                        thinking_id: u128,
                        thinking_at: Timestamp,
                        answer_id: u128,
                        answer_at: Timestamp,
                    |
                        events_view(events@) == #[trigger] streaming_events_view(
                            task_id,
                            agent_message_view(thinking_id, thinking_at, thinking_text()),
                            agent_message_view(answer_id, answer_at, response_text()),
                        )
                },
                Err(e) => {
                    &&& !old(self)@.contains_key(task_id)
                    &&& e == TaskManagerError::TaskNotFound
                    &&& final(self)@ == old(self)@
                },
            },
    {
        let started = self.update_task(task_id, TaskState::Processing, None);
        match started {
            Err(e) => Err(e),
            Ok(t) => {
                let events = fresh_streaming_events(task_id);
                let ghost at = t.updated_at->0;
                assert(final(self)@ == old(self)@.insert(
                    task_id,
                    old(self)@[task_id].with_state(TaskState::Processing, None, at),
                ));
                Ok(events)
            },
        }
    }

    /// Applies a streaming event to task `task_id`: a state change updates the task's state
    /// and error, a new message is added to it.
    pub fn apply_event(&mut self, task_id: u128, event: &TaskStreamingEvent) -> (r: Result<
        Task,
        TaskManagerError,
    >)
        ensures
            final(self).agent_card() == old(self).agent_card(),
            match r {
                Ok(t) => {
                    &&& old(self)@.contains_key(task_id)
                    &&& t.updated_at is Some
                    &&& t@ == old(self)@[task_id].with_event(event@, t.updated_at->0)
                    &&& final(self)@ == old(self)@.insert(task_id, t@)
                },
                Err(e) => {
                    &&& !old(self)@.contains_key(task_id)
                    &&& e == TaskManagerError::TaskNotFound
                    &&& final(self)@ == old(self)@
                },
            },
    {
        match event {
            TaskStreamingEvent::StateChange { state, error, .. } => {
                let e = match error {
                    Some(e) => Some(e.clone()),
                    None => None,
                };
                self.update_task(task_id, *state, e)
            },
            TaskStreamingEvent::MessageAdd { message, .. } => {
                self.add_message(task_id, message.clone())
            },
        }
    }

    /// Applies `events` in order to task `task_id`, each as `apply_event` does.
    pub fn apply_events(&mut self, task_id: u128, events: &Vec<TaskStreamingEvent>) -> (r: Result<
        Task,
        TaskManagerError,
    >)
        ensures
            final(self).agent_card() == old(self).agent_card(),
            match r {
                Ok(t) => {
                    &&& old(self)@.contains_key(task_id)
                    &&& exists|times: Seq<Timestamp>|
                        times.len() == events@.len() && t@ == #[trigger] replay_events(
                            old(self)@[task_id],
                            events_view(events@),
                            times,
                        )
                    &&& final(self)@ == old(self)@.insert(task_id, t@)
                },
                Err(e) => {
                    &&& !old(self)@.contains_key(task_id)
                    &&& e == TaskManagerError::TaskNotFound
                    &&& final(self)@ == old(self)@
                },
            },
    {
        let start = self.get_task(task_id);
        let mut current = match start {
            None => {
                return Err(TaskManagerError::TaskNotFound);
            },
            Some(t) => t,
        };
        let ghost t0 = old(self)@[task_id];
        let ghost evs = events_view(events@);
        let ghost mut times: Seq<Timestamp> = Seq::empty();
        assert(old(self)@.insert(task_id, t0) =~= old(self)@);
        assert(evs.take(0) =~= Seq::<TaskStreamingEventView>::empty());
        let n = events.len();
        let mut i: usize = 0;
        while i < n
            invariant
                n == events@.len(),
                i <= n,
                evs == events_view(events@),
                old(self)@.contains_key(task_id),
                t0 == old(self)@[task_id],
                times.len() == i,
                current@ == replay_events(t0, evs.take(i as int), times),
                self@ == old(self)@.insert(task_id, current@),
                self.agent_card() == old(self).agent_card(),
            decreases n - i,
        {
            let applied = self.apply_event(task_id, &events[i]);
            match applied {
                Ok(t) => {
                    proof {
                        let ghost prev = times;
                        times = times.push(t.updated_at->0);
                        assert(evs.take(i + 1).drop_last() =~= evs.take(i as int));
                        assert(times.drop_last() =~= prev);
                    }
                    current = t;
                },
                Err(e) => {
                    return Err(e);
                },
            }
            i = i + 1;
        }
        assert(evs.take(n as int) =~= evs);
        Ok(current)
    }

    /// Cancel a task: refused for an unknown task and for one that has finished (completed,
    /// failed or cancelled); otherwise the task becomes `Cancelled`, without error.
    pub fn cancel_task(&mut self, task_id: u128) -> (r: Result<Task, TaskManagerError>)
        ensures
            final(self).agent_card() == old(self).agent_card(),
            match r {
                Ok(t) => {
                    &&& old(self)@.contains_key(task_id)
                    &&& !old(self)@[task_id].state.is_final()
                    &&& t.updated_at is Some
                    &&& t@ == old(self)@[task_id].with_state(
                        TaskState::Cancelled,
                        None,
                        t.updated_at->0,
                    )
                    &&& final(self)@ == old(self)@.insert(task_id, t@)
                },
                Err(e) => {
                    &&& final(self)@ == old(self)@
                    &&& if old(self)@.contains_key(task_id) {
                        &&& old(self)@[task_id].state.is_final()
                        &&& e == TaskManagerError::CannotCancel(old(self)@[task_id].state)
                    } else {
                        e == TaskManagerError::TaskNotFound
                    }
                },
            },
    {
        let current = self.get_task(task_id);
        match current {
            None => Err(TaskManagerError::TaskNotFound),
            Some(task) => {
                match check_cancellable(task.state) {
                    Err(e) => Err(e),
                    Ok(()) => self.update_task(task_id, TaskState::Cancelled, None),
                }
            },
        }
    }
}

impl Clone for TaskManager {
    /// A manager for the same agent, with a copy of its tasks.
    fn clone(&self) -> (r: Self)
        ensures
            r@ == self@,
            r.agent_card() == self.agent_card(),
    {
        proof {
            use_type_invariant(self);
        }
        TaskManager { tasks: self.tasks.clone(), agent: self.agent.clone() }
    }
}

} // verus!
