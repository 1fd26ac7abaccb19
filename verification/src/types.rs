//! The data of the A2A protocol: agents, tasks, messages and the JSON-RPC envelope.
//!
//! Identifiers (UUIDs) are held as their 128-bit value, points in time as a
//! [`Timestamp`], and free-form JSON payloads (metadata, error data) as their
//! serialized JSON text. Each type with a string or a vector inside has a view
//! in which strings are `Seq<char>` and vectors are sequences of views.
use vstd::prelude::*;

verus! {

/// A point in time: whole seconds since the Unix epoch and the nanoseconds within that second.
#[derive(Clone, Copy, Debug, PartialEq, Eq, Structural)]
pub struct Timestamp {
    pub secs: i64,
    pub nanos: u32,
}

impl Timestamp {
    /// `self` lies strictly before `other`.
    pub open spec fn is_before(self, other: Timestamp) -> bool {
        self.secs < other.secs || (self.secs == other.secs && self.nanos < other.nanos)
    }

    /// Whether `self` lies strictly before `other`.
    pub fn before(&self, other: &Timestamp) -> (r: bool)
        ensures
            r == self.is_before(*other),
    {
        self.secs < other.secs || (self.secs == other.secs && self.nanos < other.nanos)
    }
}

/// The view of an optional string.
pub open spec fn opt_str(o: Option<String>) -> Option<Seq<char>> {
    match o {
        Some(s) => Some(s@),
        None => None,
    }
}

fn clone_opt_string(o: &Option<String>) -> (r: Option<String>)
    ensures
        r == *o,
{
    match o {
        Some(s) => Some(s.clone()),
        None => None,
    }
}

/// Represents an agent in the A2A protocol.
#[derive(Debug)]
pub struct AgentCard {
    pub id: u128,
    pub name: String,
    pub description: String,
    /// The agent's metadata object, as JSON text.
    pub metadata: Option<String>,
    pub version: Option<String>,
}

pub struct AgentCardView {
    pub id: u128,
    pub name: Seq<char>,
    pub description: Seq<char>,
    pub metadata: Option<Seq<char>>,
    pub version: Option<Seq<char>>,
}

impl View for AgentCard {
    type V = AgentCardView;

    open spec fn view(&self) -> AgentCardView {
        AgentCardView {
            id: self.id,
            name: self.name@,
            description: self.description@,
            metadata: opt_str(self.metadata),
            version: opt_str(self.version),
        }
    }
}

impl Clone for AgentCard {
    fn clone(&self) -> (r: Self)
        ensures
            r == *self,
    {
        AgentCard {
            id: self.id,
            name: self.name.clone(),
            description: self.description.clone(),
            metadata: clone_opt_string(&self.metadata),
            version: clone_opt_string(&self.version),
        }
    }
}

/// Represents the state of a task.
#[derive(Clone, Copy, Debug, PartialEq, Eq, Structural)]
pub enum TaskState {
    Created,
    InputRequired,
    Processing,
    Completed,
    Failed,
    Cancelled,
}

impl TaskState {
    /// A task in this state has finished: it completed, failed or was cancelled.
    pub open spec fn is_final(self) -> bool {
        self is Completed || self is Failed || self is Cancelled
    }

    /// Whether a task in this state has finished.
    pub fn is_terminal(&self) -> (r: bool)
        ensures
            r == self.is_final(),
    {
        match self {
            TaskState::Completed | TaskState::Failed | TaskState::Cancelled => true,
            _ => false,
        }
    }

    /// The variant's name, as its `Debug` form writes it.
    pub open spec fn debug_name(self) -> Seq<char> {
        match self {
            TaskState::Created => "Created"@,
            TaskState::InputRequired => "InputRequired"@,
            TaskState::Processing => "Processing"@,
            TaskState::Completed => "Completed"@,
            TaskState::Failed => "Failed"@,
            TaskState::Cancelled => "Cancelled"@,
        }
    }

    /// The variant's name.
    pub fn name(&self) -> (r: String)
        ensures
            r@ == self.debug_name(),
    {
        let s = match self {
            TaskState::Created => "Created",
            TaskState::InputRequired => "InputRequired",
            TaskState::Processing => "Processing",
            TaskState::Completed => "Completed",
            TaskState::Failed => "Failed",
            TaskState::Cancelled => "Cancelled",
        };
        s.to_string()
    }
}

/// Represents an error that occurred during task processing.
#[derive(Debug)]
pub struct TaskError {
    pub code: i32,
    pub message: String,
    /// Additional data, as JSON text.
    pub data: Option<String>,
}

pub struct TaskErrorView {
    pub code: i32,
    pub message: Seq<char>,
    pub data: Option<Seq<char>>,
}

impl View for TaskError {
    type V = TaskErrorView;

    open spec fn view(&self) -> TaskErrorView {
        TaskErrorView { code: self.code, message: self.message@, data: opt_str(self.data) }
    }
}

impl Clone for TaskError {
    fn clone(&self) -> (r: Self)
        ensures
            r == *self,
    {
        TaskError {
            code: self.code,
            message: self.message.clone(),
            data: clone_opt_string(&self.data),
        }
    }
}

/// The view of an optional task error.
pub open spec fn opt_error(o: Option<TaskError>) -> Option<TaskErrorView> {
    match o {
        Some(e) => Some(e@),
        None => None,
    }
}

/// One header of a push notification request.
#[derive(Debug)]
pub struct HttpHeader {
    pub name: String,
    pub value: String,
}

impl Clone for HttpHeader {
    fn clone(&self) -> (r: Self)
        ensures
            r == *self,
    {
        HttpHeader { name: self.name.clone(), value: self.value.clone() }
    }
}

/// The view of a list of headers: name and value of each, in order.
pub open spec fn headers_view(v: Vec<HttpHeader>) -> Seq<(Seq<char>, Seq<char>)> {
    v@.map_values(|h: HttpHeader| (h.name@, h.value@))
}

/// No two headers of the list have the same name.
pub open spec fn distinct_names(h: Seq<(Seq<char>, Seq<char>)>) -> bool {
    forall|i: int, j: int| 0 <= i < j < h.len() ==> h[i].0 != h[j].0
}

/// The headers `h` with header `name` set to `value`: the value of a header of that name is
/// replaced in place, else the header is appended.
pub open spec fn with_header(
    h: Seq<(Seq<char>, Seq<char>)>,
    name: Seq<char>,
    value: Seq<char>,
) -> Seq<(Seq<char>, Seq<char>)> {
    if exists|i: int| 0 <= i < h.len() && h[i].0 == name {
        h.update(choose|i: int| 0 <= i < h.len() && h[i].0 == name, (name, value))
    } else {
        h.push((name, value))
    }
}

/// Configuration for push notifications: the URL to notify, and the headers to send with each
/// notification, at most one of each name.
#[derive(Debug)]
pub struct PushNotificationConfig {
    url: String,
    headers: Option<Vec<HttpHeader>>,
}

pub struct PushNotificationConfigView {
    pub url: Seq<char>,
    pub headers: Option<Seq<(Seq<char>, Seq<char>)>>,
}

impl View for PushNotificationConfig {
    type V = PushNotificationConfigView;

    closed spec fn view(&self) -> PushNotificationConfigView {
        PushNotificationConfigView {
            url: self.url@,
            headers: match self.headers {
                Some(h) => Some(headers_view(h)),
                None => None,
            },
        }
    }
}

/// The position of the header named `name` in `h`, if there is one.
fn find_header(h: &Vec<HttpHeader>, name: &String) -> (r: Option<usize>)
    ensures
        match r {
            Some(i) => i < h@.len() && headers_view(*h)[i as int].0 == name@,
            None => forall|j: int| 0 <= j < h@.len() ==> headers_view(*h)[j].0 != name@,
        },
{
    let mut i: usize = 0;
    while i < h.len()
        invariant
            i <= h@.len(),
            forall|j: int| 0 <= j < i ==> headers_view(*h)[j].0 != name@,
        decreases h@.len() - i,
    {
        if h[i].name == *name {
            return Some(i);
        }
        i = i + 1;
    }
    None
}

impl PushNotificationConfig {
    #[verifier::type_invariant]
    spec fn names_distinct(self) -> bool {
        match self.headers {
            Some(h) => distinct_names(headers_view(h)),
            None => true,
        }
    }

    /// A configuration that notifies `url`, without headers.
    pub fn new(url: String) -> (r: Self)
        ensures
            r@ == (PushNotificationConfigView { url: url@, headers: None }),
    {
        PushNotificationConfig { url, headers: None }
    }

    /// The URL to notify.
    pub fn url(&self) -> (r: &String)
        ensures
            r@ == self@.url,
    {
        &self.url
    }

    /// The headers, if the configuration has any, each name once.
    pub fn headers(&self) -> (r: Option<&Vec<HttpHeader>>)
        ensures
            match r {
                Some(h) => self@.headers == Some(headers_view(*h)) && distinct_names(
                    headers_view(*h),
                ),
                None => self@.headers is None,
            },
    {
        proof {
            use_type_invariant(self);
        }
        match &self.headers {
            Some(h) => Some(h),
            None => None,
        }
    }

    /// Gives the configuration an empty set of headers.
    pub fn clear_headers(&mut self)
        ensures
            final(self)@ == (PushNotificationConfigView {
                url: old(self)@.url,
                headers: Some(Seq::empty()),
            }),
    {
        let empty: Vec<HttpHeader> = Vec::new();
        assert(headers_view(empty) =~= Seq::<(Seq<char>, Seq<char>)>::empty());
        self.headers = Some(empty);
    }

    /// Sets header `name` to `value`: a header of that name gets the new value, else the header
    /// is added after the others.
    pub fn insert_header(&mut self, name: String, value: String)
        ensures
            final(self)@ == (PushNotificationConfigView {
                url: old(self)@.url,
                headers: Some(
                    with_header(
                        match old(self)@.headers {
                            Some(h) => h,
                            None => Seq::empty(),
                        },
                        name@,
                        value@,
                    ),
                ),
            }),
    {
        proof {
            use_type_invariant(&*self);
        }
        let mut taken: Option<Vec<HttpHeader>> = None;
        std::mem::swap(&mut taken, &mut self.headers);
        let mut h: Vec<HttpHeader> = match taken {
            Some(h) => h,
            None => {
                let e: Vec<HttpHeader> = Vec::new();
                assert(headers_view(e) =~= Seq::<(Seq<char>, Seq<char>)>::empty());
                e
            },
        };
        let ghost before = headers_view(h);
        assert(distinct_names(before));
        let ghost n = name@;
        let ghost v = value@;
        match find_header(&h, &name) {
            Some(i) => {
                h.set(i, HttpHeader { name, value });
                assert(headers_view(h) =~= before.update(i as int, (n, v)));
                proof {
                    let c = choose|k: int| 0 <= k < before.len() && before[k].0 == n;
                    assert(c == i);
                }
                assert(headers_view(h) =~= with_header(before, n, v));
            },
            None => {
                h.push(HttpHeader { name, value });
                assert(headers_view(h) =~= before.push((n, v)));
                assert(headers_view(h) =~= with_header(before, n, v));
            },
        }
        assert(distinct_names(headers_view(h)));
        self.headers = Some(h);
    }
}

impl Clone for PushNotificationConfig {
    fn clone(&self) -> (r: Self)
        ensures
            r@ == self@,
    {
        proof {
            use_type_invariant(self);
        }
        let headers = match &self.headers {
            Some(h) => {
                let c = h.clone();
                assert(headers_view(c) =~= headers_view(*h));
                Some(c)
            },
            None => None,
        };
        PushNotificationConfig { url: self.url.clone(), headers }
    }
}

/// The view of an optional push notification configuration.
pub open spec fn opt_push(o: Option<PushNotificationConfig>) -> Option<PushNotificationConfigView> {
    match o {
        Some(c) => Some(c@),
        None => None,
    }
}

fn clone_opt_push(o: &Option<PushNotificationConfig>) -> (r: Option<PushNotificationConfig>)
    ensures
        opt_push(r) == opt_push(*o),
{
    match o {
        Some(c) => Some(c.clone()),
        None => None,
    }
}

/// Represents an artifact in the A2A protocol.
#[derive(Debug)]
pub struct Artifact {
    pub id: u128,
    pub type_: String,
    pub mime_type: String,
    pub title: Option<String>,
    pub description: Option<String>,
    pub data: String,
}

impl Clone for Artifact {
    fn clone(&self) -> (r: Self)
        ensures
            r == *self,
    {
        Artifact {
            id: self.id,
            type_: self.type_.clone(),
            mime_type: self.mime_type.clone(),
            title: clone_opt_string(&self.title),
            description: clone_opt_string(&self.description),
            data: self.data.clone(),
        }
    }
}

pub struct ArtifactView {
    pub id: u128,
    pub type_: Seq<char>,
    pub mime_type: Seq<char>,
    pub title: Option<Seq<char>>,
    pub description: Option<Seq<char>>,
    pub data: Seq<char>,
}

impl View for Artifact {
    type V = ArtifactView;

    open spec fn view(&self) -> ArtifactView {
        ArtifactView {
            id: self.id,
            type_: self.type_@,
            mime_type: self.mime_type@,
            title: opt_str(self.title),
            description: opt_str(self.description),
            data: self.data@,
        }
    }
}

/// Represents a part of a message.
#[derive(Debug)]
pub enum Part {
    Text { text: String },
    Artifact { artifact: Artifact },
}

pub enum PartView {
    Text { text: Seq<char> },
    Artifact { artifact: ArtifactView },
}

impl View for Part {
    type V = PartView;

    open spec fn view(&self) -> PartView {
        match self {
            Part::Text { text } => PartView::Text { text: text@ },
            Part::Artifact { artifact } => PartView::Artifact { artifact: artifact@ },
        }
    }
}

impl Clone for Part {
    fn clone(&self) -> (r: Self)
        ensures
            r == *self,
    {
        match self {
            Part::Text { text } => Part::Text { text: text.clone() },
            Part::Artifact { artifact } => Part::Artifact { artifact: artifact.clone() },
        }
    }
}

/// Represents a message in the A2A protocol.
#[derive(Debug)]
pub struct Message {
    pub id: u128,
    pub created_at: Timestamp,
    pub role: String,
    pub parts: Vec<Part>,
}

pub struct MessageView {
    pub id: u128,
    pub created_at: Timestamp,
    pub role: Seq<char>,
    pub parts: Seq<PartView>,
}

impl View for Message {
    type V = MessageView;

    open spec fn view(&self) -> MessageView {
        MessageView {
            id: self.id,
            created_at: self.created_at,
            role: self.role@,
            parts: self.parts@.map_values(|p: Part| p@),
        }
    }
}

impl Clone for Message {
    fn clone(&self) -> (r: Self)
        ensures
            r@ == self@,
    {
        let parts = self.parts.clone();
        assert(parts@ =~= self.parts@);
        assert(parts@.map_values(|p: Part| p@) =~= self.parts@.map_values(|p: Part| p@));
        Message { id: self.id, created_at: self.created_at, role: self.role.clone(), parts }
    }
}

/// The view of a list of messages.
pub open spec fn messages_view(v: Seq<Message>) -> Seq<MessageView> {
    v.map_values(|m: Message| m@)
}

/// A copy of a list of messages.
pub fn clone_messages(v: &Vec<Message>) -> (r: Vec<Message>)
    ensures
        messages_view(r@) == messages_view(v@),
{
    let r = v.clone();
    assert(messages_view(r@) =~= messages_view(v@));
    r
}

/// Represents a task in the A2A protocol.
#[derive(Debug)]
pub struct Task {
    pub id: u128,
    pub agent_id: u128,
    pub created_at: Timestamp,
    pub updated_at: Option<Timestamp>,
    pub state: TaskState,
    pub inputs: Vec<Message>,
    pub outputs: Vec<Message>,
    pub error: Option<TaskError>,
    pub push_notification_config: Option<PushNotificationConfig>,
}

pub struct TaskView {
    pub id: u128,
    pub agent_id: u128,
    pub created_at: Timestamp,
    pub updated_at: Option<Timestamp>,
    pub state: TaskState,
    pub inputs: Seq<MessageView>,
    pub outputs: Seq<MessageView>,
    pub error: Option<TaskErrorView>,
    pub push_notification_config: Option<PushNotificationConfigView>,
}

impl View for Task {
    type V = TaskView;

    open spec fn view(&self) -> TaskView {
        TaskView {
            id: self.id,
            agent_id: self.agent_id,
            created_at: self.created_at,
            updated_at: self.updated_at,
            state: self.state,
            inputs: messages_view(self.inputs@),
            outputs: messages_view(self.outputs@),
            error: opt_error(self.error),
            push_notification_config: opt_push(self.push_notification_config),
        }
    }
}

impl Clone for Task {
    fn clone(&self) -> (r: Self)
        ensures
            r@ == self@,
    {
        let error = match &self.error {
            Some(e) => Some(e.clone()),
            None => None,
        };
        Task {
            id: self.id,
            agent_id: self.agent_id,
            created_at: self.created_at,
            updated_at: self.updated_at,
            state: self.state,
            inputs: clone_messages(&self.inputs),
            outputs: clone_messages(&self.outputs),
            error,
            push_notification_config: clone_opt_push(&self.push_notification_config),
        }
    }
}

/// Represents a streaming event for a task.
#[derive(Debug)]
pub enum TaskStreamingEvent {
    StateChange { event: String, task_id: u128, state: TaskState, error: Option<TaskError> },
    MessageAdd { event: String, task_id: u128, message: Message },
}

pub enum TaskStreamingEventView {
    StateChange {
        event: Seq<char>,
        task_id: u128,
        state: TaskState,
        error: Option<TaskErrorView>,
    },
    MessageAdd { event: Seq<char>, task_id: u128, message: MessageView },
}

impl View for TaskStreamingEvent {
    type V = TaskStreamingEventView;

    open spec fn view(&self) -> TaskStreamingEventView {
        match self {
            TaskStreamingEvent::StateChange { event, task_id, state, error } => {
                TaskStreamingEventView::StateChange {
                    event: event@,
                    task_id: *task_id,
                    state: *state,
                    error: opt_error(*error),
                }
            },
            TaskStreamingEvent::MessageAdd { event, task_id, message } => {
                TaskStreamingEventView::MessageAdd {
                    event: event@,
                    task_id: *task_id,
                    message: message@,
                }
            },
        }
    }
}

impl Clone for TaskStreamingEvent {
    fn clone(&self) -> (r: Self)
        ensures
            r@ == self@,
    {
        match self {
            TaskStreamingEvent::StateChange { event, task_id, state, error } => {
                let error = match error {
                    Some(e) => Some(e.clone()),
                    None => None,
                };
                TaskStreamingEvent::StateChange {
                    event: event.clone(),
                    task_id: *task_id,
                    state: *state,
                    error,
                }
            },
            TaskStreamingEvent::MessageAdd { event, task_id, message } => {
                TaskStreamingEvent::MessageAdd {
                    event: event.clone(),
                    task_id: *task_id,
                    message: message.clone(),
                }
            },
        }
    }
}

/// The view of a list of streaming events.
pub open spec fn events_view(v: Seq<TaskStreamingEvent>) -> Seq<TaskStreamingEventView> {
    v.map_values(|e: TaskStreamingEvent| e@)
}

/// What a request carries under `taskId`.
#[derive(Debug)]
pub enum TaskIdParam {
    /// The parameters have no `taskId`.
    Missing,
    /// `taskId` is there but is not a string.
    NotAString,
    /// `taskId` is this string.
    Text(String),
}

pub enum TaskIdParamView {
    Missing,
    NotAString,
    Text(Seq<char>),
}

impl View for TaskIdParam {
    type V = TaskIdParamView;

    open spec fn view(&self) -> TaskIdParamView {
        match self {
            TaskIdParam::Missing => TaskIdParamView::Missing,
            TaskIdParam::NotAString => TaskIdParamView::NotAString,
            TaskIdParam::Text(s) => TaskIdParamView::Text(s@),
        }
    }
}

/// What a request carries under `messages`.
#[derive(Debug)]
pub enum MessagesParam {
    /// The parameters have no `messages`.
    Missing,
    /// `messages` is there but is not a list of messages; the text says why.
    Invalid(String),
    /// `messages` holds these messages.
    Valid(Vec<Message>),
}

pub enum MessagesParamView {
    Missing,
    Invalid(Seq<char>),
    Valid(Seq<MessageView>),
}

impl View for MessagesParam {
    type V = MessagesParamView;

    open spec fn view(&self) -> MessagesParamView {
        match self {
            MessagesParam::Missing => MessagesParamView::Missing,
            MessagesParam::Invalid(e) => MessagesParamView::Invalid(e@),
            MessagesParam::Valid(v) => MessagesParamView::Valid(messages_view(v@)),
        }
    }
}

/// The parameters of a JSON-RPC request, as far as the protocol's methods read them.
#[derive(Debug)]
pub struct RequestParams {
    pub task_id: TaskIdParam,
    pub messages: MessagesParam,
    /// `pushNotificationConfig`, where it is there and well formed.
    pub push_notification_config: Option<PushNotificationConfig>,
}

pub struct RequestParamsView {
    pub task_id: TaskIdParamView,
    pub messages: MessagesParamView,
    pub push_notification_config: Option<PushNotificationConfigView>,
}

impl View for RequestParams {
    type V = RequestParamsView;

    open spec fn view(&self) -> RequestParamsView {
        RequestParamsView {
            task_id: self.task_id@,
            messages: self.messages@,
            push_notification_config: opt_push(self.push_notification_config),
        }
    }
}

/// Represents a JSON-RPC request.
#[derive(Debug)]
pub struct JsonRpcRequest {
    pub jsonrpc: String,
    pub id: String,
    pub method: String,
    pub params: RequestParams,
}

pub struct JsonRpcRequestView {
    pub jsonrpc: Seq<char>,
    pub id: Seq<char>,
    pub method: Seq<char>,
    pub params: RequestParamsView,
}

impl View for JsonRpcRequest {
    type V = JsonRpcRequestView;

    open spec fn view(&self) -> JsonRpcRequestView {
        JsonRpcRequestView {
            jsonrpc: self.jsonrpc@,
            id: self.id@,
            method: self.method@,
            params: self.params@,
        }
    }
}

/// Represents a JSON-RPC error.
#[derive(Debug)]
pub struct JsonRpcError {
    pub code: i32,
    pub message: String,
    /// Additional data, as JSON text.
    pub data: Option<String>,
}

pub struct JsonRpcErrorView {
    pub code: i32,
    pub message: Seq<char>,
    pub data: Option<Seq<char>>,
}

impl View for JsonRpcError {
    type V = JsonRpcErrorView;

    open spec fn view(&self) -> JsonRpcErrorView {
        JsonRpcErrorView { code: self.code, message: self.message@, data: opt_str(self.data) }
    }
}

/// The result of a successful JSON-RPC call: `{"agent": ..}`, `{"task": ..}`,
/// `{"events": [..]}`, or any other JSON value, held as its JSON text.
#[derive(Debug)]
pub enum RpcResult {
    Agent(AgentCard),
    Task(Task),
    Events(Vec<TaskStreamingEvent>),
    Json(String),
}

pub enum RpcResultView {
    Agent(AgentCardView),
    Task(TaskView),
    Events(Seq<TaskStreamingEventView>),
    Json(Seq<char>),
}

impl View for RpcResult {
    type V = RpcResultView;

    open spec fn view(&self) -> RpcResultView {
        match self {
            RpcResult::Agent(a) => RpcResultView::Agent(a@),
            RpcResult::Task(t) => RpcResultView::Task(t@),
            RpcResult::Events(v) => RpcResultView::Events(events_view(v@)),
            RpcResult::Json(t) => RpcResultView::Json(t@),
        }
    }
}

/// Represents a JSON-RPC response.
#[derive(Debug)]
pub struct JsonRpcResponse {
    pub jsonrpc: String,
    pub id: String,
    pub result: Option<RpcResult>,
    pub error: Option<JsonRpcError>,
}

pub struct JsonRpcResponseView {
    pub jsonrpc: Seq<char>,
    pub id: Seq<char>,
    pub result: Option<RpcResultView>,
    pub error: Option<JsonRpcErrorView>,
}

impl View for JsonRpcResponse {
    type V = JsonRpcResponseView;

    open spec fn view(&self) -> JsonRpcResponseView {
        JsonRpcResponseView {
            jsonrpc: self.jsonrpc@,
            id: self.id@,
            result: match self.result {
                Some(r) => Some(r@),
                None => None,
            },
            error: match self.error {
                Some(e) => Some(e@),
                None => None,
            },
        }
    }
}

/// The successful response with the given id and result.
pub open spec fn success_view(id: Seq<char>, result: RpcResultView) -> JsonRpcResponseView {
    JsonRpcResponseView { jsonrpc: "2.0"@, id, result: Some(result), error: None }
}

/// The error response with the given id, code, message and data.
pub open spec fn failure_view(
    id: Seq<char>,
    code: i32,
    message: Seq<char>,
    data: Option<Seq<char>>,
) -> JsonRpcResponseView {
    JsonRpcResponseView {
        jsonrpc: "2.0"@,
        id,
        result: None,
        error: Some(JsonRpcErrorView { code, message, data }),
    }
}

/// Utility function to create a JSON-RPC response.
pub fn create_response(id: String, result: RpcResult) -> (r: JsonRpcResponse)
    ensures
        r@ == success_view(id@, result@),
{
    JsonRpcResponse { jsonrpc: "2.0".to_string(), id, result: Some(result), error: None }
}

/// Utility function to create a JSON-RPC error response.
pub fn create_error_response(id: String, code: i32, message: String, data: Option<String>) -> (r:
    JsonRpcResponse)
    ensures
        r@ == failure_view(id@, code, message@, opt_str(data)),
{
    JsonRpcResponse {
        jsonrpc: "2.0".to_string(),
        id,
        result: None,
        error: Some(JsonRpcError { code, message, data }),
    }
}

} // verus!
