//! The messages that mesh nodes exchange: capability announcements, task
//! requests and their responses, health pings, and relay tasks.

use vstd::prelude::*;

use crate::text::{decimal, decimal_string};

verus! {

/// Agent capability announcement sent over gossip.
#[derive(Debug, Clone, PartialEq, Eq)]
pub struct CapabilityAnnouncement {
    pub agent_id: String,
    pub agent_name: String,
    pub peer_id: String,
    pub capabilities: Vec<String>,
    pub version: String,
    pub listen_addrs: Vec<String>,
}

/// Task dispatch sent over request-response. `payload` holds the JSON text
/// of the task's payload value.
#[derive(Debug, Clone, PartialEq, Eq)]
pub struct TaskRequest {
    pub task_id: String,
    pub title: String,
    pub description: String,
    pub capability: String,
    pub priority: i32,
    pub payload: String,
}

/// Task result sent back.
#[derive(Debug, Clone, PartialEq, Eq)]
pub struct TaskResponse {
    pub task_id: String,
    pub status: String,
    pub result: Option<String>,
    pub error: Option<String>,
}

/// Health check ping.
#[derive(Debug, Clone, Copy, PartialEq, Eq)]
pub struct Ping;

/// Health check pong.
#[derive(Debug, Clone, PartialEq, Eq)]
pub struct Pong {
    pub agent_name: String,
    pub peer_id: String,
    pub uptime_secs: u64,
    pub task_count: u32,
}

/// Task dispatched from the relay. `payload` holds the JSON text of the
/// payload value where there is one.
#[derive(Debug, Clone, PartialEq, Eq)]
pub struct RelayTask {
    pub id: String,
    pub title: String,
    pub description: Option<String>,
    pub capability: Option<String>,
    pub priority: i32,
    pub payload: Option<String>,
}

/// Marker for the JSON request-response codec of a request and response type.
pub struct JsonCodec<Req, Res> {
    _marker: core::marker::PhantomData<(Req, Res)>,
}

impl<Req, Res> JsonCodec<Req, Res> {
    pub fn new() -> Self {
        JsonCodec { _marker: core::marker::PhantomData }
    }
}

/// What a capability announcement says.
pub struct AnnouncementView {
    pub agent_id: Seq<char>,
    pub agent_name: Seq<char>,
    pub peer_id: Seq<char>,
    pub capabilities: Seq<Seq<char>>,
    pub version: Seq<char>,
    pub listen_addrs: Seq<Seq<char>>,
}

impl View for CapabilityAnnouncement {
    type V = AnnouncementView;

    open spec fn view(&self) -> AnnouncementView {
        AnnouncementView {
            agent_id: self.agent_id@,
            agent_name: self.agent_name@,
            peer_id: self.peer_id@,
            capabilities: self.capabilities.deep_view(),
            version: self.version@,
            listen_addrs: self.listen_addrs.deep_view(),
        }
    }
}

/// What a task request says.
pub struct TaskRequestView {
    pub task_id: Seq<char>,
    pub title: Seq<char>,
    pub description: Seq<char>,
    pub capability: Seq<char>,
    pub priority: i32,
    pub payload: Seq<char>,
}

impl View for TaskRequest {
    type V = TaskRequestView;

    open spec fn view(&self) -> TaskRequestView {
        TaskRequestView {
            task_id: self.task_id@,
            title: self.title@,
            description: self.description@,
            capability: self.capability@,
            priority: self.priority,
            payload: self.payload@,
        }
    }
}

/// What a task response says.
pub struct TaskResponseView {
    pub task_id: Seq<char>,
    pub status: Seq<char>,
    pub result: Option<Seq<char>>,
    pub error: Option<Seq<char>>,
}

impl View for TaskResponse {
    type V = TaskResponseView;

    open spec fn view(&self) -> TaskResponseView {
        TaskResponseView {
            task_id: self.task_id@,
            status: self.status@,
            result: self.result.deep_view(),
            error: self.error.deep_view(),
        }
    }
}

/// What a pong says.
pub struct PongView {
    pub agent_name: Seq<char>,
    pub peer_id: Seq<char>,
    pub uptime_secs: u64,
    pub task_count: u32,
}

impl View for Pong {
    type V = PongView;

    open spec fn view(&self) -> PongView {
        PongView {
            agent_name: self.agent_name@,
            peer_id: self.peer_id@,
            uptime_secs: self.uptime_secs,
            task_count: self.task_count,
        }
    }
}

/// Copies an optional string.
pub fn clone_opt_string(s: &Option<String>) -> (r: Option<String>)
    ensures
        r.deep_view() == s.deep_view(),
{
    match s {
        Some(v) => Some(v.clone()),
        None => None,
    }
}

/// Copies a list of strings.
pub fn clone_strings(v: &Vec<String>) -> (r: Vec<String>)
    ensures
        r.deep_view() == v.deep_view(),
{
    let mut r: Vec<String> = Vec::new();
    for i in 0..v.len()
        invariant
            r.len() == i,
            i <= v.len(),
            forall|j: int| 0 <= j < i ==> #[trigger] r@[j]@ == v@[j]@,
    {
        r.push(v[i].clone());
    }
    assert(r.deep_view() =~= v.deep_view());
    r
}

impl TaskResponse {
    /// The text of a response: `TaskResponse { id: <task_id>, status: <status> }`.
    pub open spec fn text(&self) -> Seq<char> {
        "TaskResponse { id: "@ + self.task_id@ + ", status: "@ + self.status@ + " }"@
    }

    /// The response as display text (see `text`).
    pub fn to_string(&self) -> (s: String)
        ensures
            s@ == self.text(),
    {
        let mut s = String::from_str("TaskResponse { id: ");
        s.append(self.task_id.as_str());
        s.append(", status: ");
        s.append(self.status.as_str());
        s.append(" }");
        s
    }

    /// A copy of the response.
    pub fn copy(&self) -> (r: TaskResponse)
        ensures
            r@ == self@,
    {
        TaskResponse {
            task_id: self.task_id.clone(),
            status: self.status.clone(),
            result: clone_opt_string(&self.result),
            error: clone_opt_string(&self.error),
        }
    }
}

impl Pong {
    /// The text of a pong:
    /// `Pong { agent: <name>, peer: <peer id>, uptime: <secs>s, tasks: <count> }`.
    pub open spec fn text(&self) -> Seq<char> {
        "Pong { agent: "@ + self.agent_name@ + ", peer: "@ + self.peer_id@ + ", uptime: "@
            + decimal(self.uptime_secs as nat) + "s, tasks: "@ + decimal(self.task_count as nat)
            + " }"@
    }

    /// The pong as display text (see `text`).
    pub fn to_string(&self) -> (s: String)
        ensures
            s@ == self.text(),
    {
        let mut s = String::from_str("Pong { agent: ");
        s.append(self.agent_name.as_str());
        s.append(", peer: ");
        s.append(self.peer_id.as_str());
        s.append(", uptime: ");
        let uptime = decimal_string(self.uptime_secs);
        s.append(uptime.as_str());
        s.append("s, tasks: ");
        let tasks = decimal_string(self.task_count as u64);
        s.append(tasks.as_str());
        s.append(" }");
        s
    }
}

impl Default for TaskRequest {
    /// Empty strings, priority 0, and a `null` payload.
    fn default() -> (r: TaskRequest)
        ensures
            r.task_id@ == Seq::<char>::empty(),
            r.title@ == Seq::<char>::empty(),
            r.description@ == Seq::<char>::empty(),
            r.capability@ == Seq::<char>::empty(),
            r.priority == 0,
            r.payload@ == "null"@,
    {
        TaskRequest {
            task_id: String::new(),
            title: String::new(),
            description: String::new(),
            capability: String::new(),
            priority: 0,
            payload: String::from_str("null"),
        }
    }
}

impl Default for TaskResponse {
    /// Empty id and status, no result and no error.
    fn default() -> (r: TaskResponse)
        ensures
            r.task_id@ == Seq::<char>::empty(),
            r.status@ == Seq::<char>::empty(),
            r.result is None,
            r.error is None,
    {
        TaskResponse { task_id: String::new(), status: String::new(), result: None, error: None }
    }
}

impl<Req, Res> Default for JsonCodec<Req, Res> {
    fn default() -> (r: JsonCodec<Req, Res>) {
        JsonCodec::new()
    }
}

impl Default for Ping {
    fn default() -> (r: Ping) {
        Ping
    }
}

impl Default for Pong {
    /// Empty name and peer id, zero uptime and zero tasks.
    fn default() -> (r: Pong)
        ensures
            r.agent_name@ == Seq::<char>::empty(),
            r.peer_id@ == Seq::<char>::empty(),
            r.uptime_secs == 0,
            r.task_count == 0,
    {
        Pong { agent_name: String::new(), peer_id: String::new(), uptime_secs: 0, task_count: 0 }
    }
}

} // verus!
