//! The decisions of a mesh node. The node's network, clock and shell are
//! driven by the caller, which turns what happens into a `MeshEvent`, hands
//! it to `MeshNode::handle_event`, and performs the `MeshAction` that comes
//! back.

use vstd::prelude::*;

use crate::config::{Config, ConfigView};
use crate::identity::NodeKey;
use crate::protocol::{
    clone_strings, AnnouncementView, CapabilityAnnouncement, Pong, PongView, TaskRequest,
    TaskRequestView, TaskResponse, TaskResponseView,
};
use crate::relay::{result_report_for, RelayClient, RelayClientView, ResultReport, ResultReportView};
use crate::text::{decimal, push_decimal};

verus! {

/// The `command` string field of the JSON object in `payload`, or `None`
/// where `payload` is not JSON, not an object, or has no such string field.
pub uninterp spec fn json_command_field(payload: Seq<char>) -> Option<Seq<char>>;

/// The bytes of the multiaddress that libp2p parses from `text`, or `None`
/// where `text` is not a multiaddress.
pub uninterp spec fn parsed_multiaddr(text: Seq<char>) -> Option<Seq<u8>>;

/// Whether libp2p parses `text` as a multiaddress.
pub open spec fn multiaddr_parses(text: Seq<char>) -> bool {
    parsed_multiaddr(text) is Some
}

#[verifier::external_type_specification]
#[verifier::external_body]
pub struct ExMultiaddrError(libp2p::multiaddr::Error);

/// `serde_json::from_str` of the payload text into a `serde_json::Value`,
/// then `Value::get("command")`, kept where it is a JSON string. The result is named by
/// `json_command_field`; nothing more is claimed of it.
#[verifier::external_body]
fn json_command(payload: &str) -> (r: Option<String>)
    ensures
        match r {
            Some(c) => json_command_field(payload@) == Some(c@),
            None => json_command_field(payload@) is None,
        },
{
    let value = match serde_json::from_str::<serde_json::Value>(payload) {
        Ok(v) => v,
        Err(_) => return None,
    };
    match value.get("command") {
        Some(serde_json::Value::String(c)) => Some(c.clone()),
        _ => None,
    }
}

/// `<libp2p::Multiaddr as FromStr>::from_str`, then `Multiaddr::to_vec`: the
/// address's bytes are the ones named by `parsed_multiaddr`, and it fails
/// exactly where that name is `None`. A text `/ip4/0.0.0.0/tcp/<port>` with
/// the decimal of a `u16` port always parses: the `ip4` part is a valid IPv4
/// address and the `tcp` part a valid `u16`.
#[verifier::external_body]
fn parse_multiaddr(text: &str) -> (r: Result<Vec<u8>, libp2p::multiaddr::Error>)
    ensures
        r is Ok <==> multiaddr_parses(text@),
        r matches Ok(a) ==> parsed_multiaddr(text@) == Some(a@),
        (exists|p: u16| text@ == #[trigger] listen_address_for(p)) ==> r is Ok,
{
    match text.parse::<libp2p::Multiaddr>() {
        Ok(a) => Ok(a.to_vec()),
        Err(e) => Err(e),
    }
}

/// The version a node announces.
pub open spec fn mesh_version() -> Seq<char> {
    "0.1.0"@
}

/// The version a node announces.
pub fn version() -> (v: &'static str)
    ensures
        v@ == mesh_version(),
{
    "0.1.0"
}

/// The request-response protocol of health pings.
pub fn ping_protocol() -> (p: &'static str)
    ensures
        p@ == "/xmrt/mesh/ping/0.1.0"@,
{
    "/xmrt/mesh/ping/0.1.0"
}

/// The protocol version a node gives in identification.
pub fn identify_protocol() -> (p: &'static str)
    ensures
        p@ == "/xmrt/mesh/0.1.0"@,
{
    "/xmrt/mesh/0.1.0"
}

/// Seconds a dispatched task may take before its request times out.
pub fn task_request_timeout_secs() -> (s: u64)
    ensures
        s == 60,
{
    60
}

/// Seconds a ping may take before its request times out.
pub fn ping_request_timeout_secs() -> (s: u64)
    ensures
        s == 10,
{
    10
}

/// Seconds between identification pushes to connected peers.
pub fn identify_interval_secs() -> (s: u64)
    ensures
        s == 60,
{
    60
}

/// Seconds between gossip heartbeats.
pub fn gossip_heartbeat_secs() -> (s: u64)
    ensures
        s == 10,
{
    10
}

/// Seconds an idle connection is kept open.
pub fn idle_connection_timeout_secs() -> (s: u64)
    ensures
        s == 120,
{
    120
}

/// Seconds between capability announcements (and pings).
pub fn announce_interval_secs() -> (s: u64)
    ensures
        s == 120,
{
    120
}

/// The id of a gossip message whose data hashes to `hash`: its decimal text.
pub fn message_id(hash: u64) -> (id: String)
    ensures
        id@ == decimal(hash as nat),
{
    crate::text::decimal_string(hash)
}

/// Capabilities served by running the payload's command in a shell.
pub open spec fn is_shell_capability(capability: Seq<char>) -> bool {
    capability == "bash"@ || capability == "shell"@
}

/// The command a shell task runs: the payload's `command` field, or
/// `echo hello` where there is none.
pub open spec fn shell_command_for(payload: Seq<char>) -> Seq<char> {
    match json_command_field(payload) {
        Some(c) => c,
        None => "echo hello"@,
    }
}

/// The answer to a task whose capability this node does not serve.
pub open spec fn rejection(request: TaskRequestView) -> TaskResponseView {
    TaskResponseView {
        task_id: request.task_id,
        status: "rejected"@,
        result: None,
        error: Some("unsupported capability: "@ + request.capability),
    }
}

/// The answer to a shell task once the shell has run: its output on
/// success, the error's text on failure.
pub open spec fn shell_response(task_id: Seq<char>, outcome: Result<Seq<char>, Seq<char>>) -> TaskResponseView {
    match outcome {
        Ok(output) => TaskResponseView {
            task_id,
            status: "completed"@,
            result: Some(output),
            error: None,
        },
        Err(e) => TaskResponseView { task_id, status: "failed"@, result: None, error: Some(e) },
    }
}

/// How a task is carried out.
#[derive(Debug, Clone, PartialEq, Eq)]
pub enum TaskPlan {
    /// Run `command` in a shell, then answer with `finish_task`.
    RunShell { command: String },
    /// Answer at once with this response.
    Respond(TaskResponse),
}

/// What a task plan says.
pub enum TaskPlanView {
    RunShell { command: Seq<char> },
    Respond(TaskResponseView),
}

impl View for TaskPlan {
    type V = TaskPlanView;

    open spec fn view(&self) -> TaskPlanView {
        match self {
            TaskPlan::RunShell { command } => TaskPlanView::RunShell { command: command@ },
            TaskPlan::Respond(r) => TaskPlanView::Respond(r@),
        }
    }
}

/// The plan for a task request: shell capabilities run the payload's
/// command, any other capability is rejected.
pub open spec fn task_plan(request: TaskRequestView) -> TaskPlanView {
    if is_shell_capability(request.capability) {
        TaskPlanView::RunShell { command: shell_command_for(request.payload) }
    } else {
        TaskPlanView::Respond(rejection(request))
    }
}

/// Which response channel a failed send was on.
#[derive(Debug, Clone, Copy, PartialEq, Eq, Structural)]
pub enum Channel {
    Task,
    Ping,
}

/// What happened to the node, as the caller reports it.
#[derive(Debug, PartialEq, Eq)]
pub enum MeshEvent {
    /// A peer asks this node to carry out a task.
    TaskRequested { request: TaskRequest },
    /// The shell run for a task has finished: its output, or the error's text.
    ShellFinished { task_id: String, outcome: Result<String, String> },
    /// A peer answered a task that this node dispatched.
    TaskAnswered { response: TaskResponse },
    /// A peer pings this node; `uptime_secs` is the time since the node started.
    Pinged { uptime_secs: u64 },
    /// A peer answered a ping.
    Ponged,
    /// The announcement interval has elapsed: the node's listen addresses and
    /// how many peers are connected.
    AnnounceDue { listen_addrs: Vec<String>, connected_peers: usize },
    /// Sending a response on the given channel failed.
    SendFailed { channel: Channel },
    /// Discovery, identification, gossip or connection news, which is only logged.
    Observed,
}

/// What an event says.
pub enum MeshEventView {
    TaskRequested { request: TaskRequestView },
    ShellFinished { task_id: Seq<char>, outcome: Result<Seq<char>, Seq<char>> },
    TaskAnswered { response: TaskResponseView },
    Pinged { uptime_secs: u64 },
    Ponged,
    AnnounceDue { listen_addrs: Seq<Seq<char>>, connected_peers: usize },
    SendFailed { channel: Channel },
    Observed,
}

impl View for MeshEvent {
    type V = MeshEventView;

    open spec fn view(&self) -> MeshEventView {
        match self {
            MeshEvent::TaskRequested { request } => MeshEventView::TaskRequested { request: request@ },
            MeshEvent::ShellFinished { task_id, outcome } => MeshEventView::ShellFinished {
                task_id: task_id@,
                outcome: match outcome {
                    Ok(o) => Ok(o@),
                    Err(e) => Err(e@),
                },
            },
            MeshEvent::TaskAnswered { response } => MeshEventView::TaskAnswered {
                response: response@,
            },
            MeshEvent::Pinged { uptime_secs } => MeshEventView::Pinged { uptime_secs: *uptime_secs },
            MeshEvent::Ponged => MeshEventView::Ponged,
            MeshEvent::AnnounceDue { listen_addrs, connected_peers } => MeshEventView::AnnounceDue {
                listen_addrs: listen_addrs.deep_view(),
                connected_peers: *connected_peers,
            },
            MeshEvent::SendFailed { channel } => MeshEventView::SendFailed { channel: *channel },
            MeshEvent::Observed => MeshEventView::Observed,
        }
    }
}

/// What the caller is to do next.
#[derive(Debug, Clone, PartialEq, Eq)]
pub enum MeshAction {
    /// Nothing.
    Idle,
    /// Run `command` in a shell for the task, and report back with `ShellFinished`.
    RunShell { task_id: String, command: String },
    /// Send this response to the peer that asked for the task.
    SendTaskResponse(TaskResponse),
    /// Report a task's result to the relay.
    ReportToRelay(ResultReport),
    /// Send this pong to the peer that pinged.
    SendPong(Pong),
    /// Publish this announcement, and ping the connected peer at index
    /// `ping_peer` where there is one.
    Announce { announcement: CapabilityAnnouncement, ping_peer: Option<usize> },
    /// Stop the node with an error.
    Stop,
}

/// What an action says.
pub enum MeshActionView {
    Idle,
    RunShell { task_id: Seq<char>, command: Seq<char> },
    SendTaskResponse(TaskResponseView),
    ReportToRelay(ResultReportView),
    SendPong(PongView),
    Announce { announcement: AnnouncementView, ping_peer: Option<usize> },
    Stop,
}

impl View for MeshAction {
    type V = MeshActionView;

    open spec fn view(&self) -> MeshActionView {
        match self {
            MeshAction::Idle => MeshActionView::Idle,
            MeshAction::RunShell { task_id, command } => MeshActionView::RunShell {
                task_id: task_id@,
                command: command@,
            },
            MeshAction::SendTaskResponse(r) => MeshActionView::SendTaskResponse(r@),
            MeshAction::ReportToRelay(r) => MeshActionView::ReportToRelay(r@),
            MeshAction::SendPong(p) => MeshActionView::SendPong(p@),
            MeshAction::Announce { announcement, ping_peer } => MeshActionView::Announce {
                announcement: announcement@,
                ping_peer: *ping_peer,
            },
            MeshAction::Stop => MeshActionView::Stop,
        }
    }
}

/// Why an address was refused.
#[derive(Debug, Clone, Copy, PartialEq, Eq, Structural)]
pub enum MeshError {
    /// The text is not a multiaddress.
    InvalidAddress,
}

/// The state of a mesh node.
pub struct MeshNodeView {
    pub config: ConfigView,
    pub key_encoding: Seq<u8>,
    pub peer_id: Seq<char>,
    pub task_count: nat,
    pub relay: Option<RelayClientView>,
}

/// A mesh node: its configuration and key, the number of tasks it has been
/// asked to carry out, and the relay it reports to, if any.
pub struct MeshNode {
    config: Config,
    key: NodeKey,
    task_count: u32,
    relay_client: Option<RelayClient>,
}

impl View for MeshNode {
    type V = MeshNodeView;

    closed spec fn view(&self) -> MeshNodeView {
        MeshNodeView {
            config: self.config@,
            key_encoding: self.key@.encoded,
            peer_id: self.key@.peer_id,
            task_count: self.task_count as nat,
            relay: match self.relay_client {
                Some(c) => Some(c@),
                None => None,
            },
        }
    }
}

/// The announcement of a node's name, peer id, capabilities and version.
pub open spec fn announcement_for(node: MeshNodeView, listen_addrs: Seq<Seq<char>>) -> AnnouncementView {
    AnnouncementView {
        agent_id: node.config.agent_name,
        agent_name: node.config.agent_name,
        peer_id: node.peer_id,
        capabilities: node.config.capabilities,
        version: mesh_version(),
        listen_addrs,
    }
}

/// The pong of a node that has been up for `uptime_secs`.
pub open spec fn pong_for(node: MeshNodeView, uptime_secs: u64) -> PongView {
    PongView {
        agent_name: node.config.agent_name,
        peer_id: node.peer_id,
        uptime_secs,
        task_count: node.task_count as u32,
    }
}

/// The address the node listens on: `/ip4/0.0.0.0/tcp/<port>`.
pub open spec fn listen_address_for(port: u16) -> Seq<char> {
    "/ip4/0.0.0.0/tcp/"@ + decimal(port as nat)
}

/// Whether the node can take `event` without its task counter overflowing.
pub open spec fn can_take(node: MeshNodeView, event: MeshEventView) -> bool {
    event is TaskRequested ==> node.task_count < u32::MAX
}

/// What a node does on an event: the state after it and the action to take.
pub open spec fn step(node: MeshNodeView, event: MeshEventView) -> (MeshNodeView, MeshActionView) {
    match event {
        MeshEventView::TaskRequested { request } => (
            MeshNodeView { task_count: node.task_count + 1, ..node },
            match task_plan(request) {
                TaskPlanView::RunShell { command } => MeshActionView::RunShell {
                    task_id: request.task_id,
                    command,
                },
                TaskPlanView::Respond(r) => MeshActionView::SendTaskResponse(r),
            },
        ),
        MeshEventView::ShellFinished { task_id, outcome } => (
            node,
            MeshActionView::SendTaskResponse(shell_response(task_id, outcome)),
        ),
        MeshEventView::TaskAnswered { response } => (
            node,
            match node.relay {
                Some(c) => MeshActionView::ReportToRelay(result_report_for(c, response)),
                None => MeshActionView::Idle,
            },
        ),
        MeshEventView::Pinged { uptime_secs } => (
            node,
            MeshActionView::SendPong(pong_for(node, uptime_secs)),
        ),
        MeshEventView::AnnounceDue { listen_addrs, connected_peers } => (
            node,
            MeshActionView::Announce {
                announcement: announcement_for(node, listen_addrs),
                ping_peer: if connected_peers > 0 {
                    Some(0)
                } else {
                    None
                },
            },
        ),
        MeshEventView::SendFailed { channel } => (
            node,
            match channel {
                Channel::Task => MeshActionView::Stop,
                Channel::Ping => MeshActionView::Idle,
            },
        ),
        MeshEventView::Ponged => (node, MeshActionView::Idle),
        MeshEventView::Observed => (node, MeshActionView::Idle),
    }
}

/// The command a shell task runs: the payload's `command` field, or
/// `echo hello` where there is none.
pub fn shell_command(payload: &str) -> (command: String)
    ensures
        command@ == shell_command_for(payload@),
{
    command_or_default(json_command(payload))
}

/// The command to run given the payload's `command` field: the field where
/// there is one, `echo hello` otherwise.
pub fn command_or_default(field: Option<String>) -> (command: String)
    ensures
        command@ == match field {
            Some(c) => c@,
            None => "echo hello"@,
        },
{
    match field {
        Some(c) => c,
        None => String::from_str("echo hello"),
    }
}

/// Whether the capability is served by a shell.
pub fn is_shell(capability: &String) -> (r: bool)
    ensures
        r == is_shell_capability(capability@),
{
    let bash = String::from_str("bash");
    let shell = String::from_str("shell");
    *capability == bash || *capability == shell
}

/// The answer to a shell task once the shell has run.
pub fn finish_task(task_id: String, outcome: Result<String, String>) -> (r: TaskResponse)
    ensures
        r@ == shell_response(
            task_id@,
            match outcome {
                Ok(o) => Ok(o@),
                Err(e) => Err(e@),
            },
        ),
{
    match outcome {
        Ok(output) => TaskResponse {
            task_id,
            status: String::from_str("completed"),
            result: Some(output),
            error: None,
        },
        Err(e) => TaskResponse {
            task_id,
            status: String::from_str("failed"),
            result: None,
            error: Some(e),
        },
    }
}

/// The text of the address the node listens on on `port`.
pub fn listen_address(port: u16) -> (addr: String)
    ensures
        addr@ == listen_address_for(port),
{
    let mut addr = String::from_str("/ip4/0.0.0.0/tcp/");
    push_decimal(&mut addr, port as u64);
    addr
}

impl MeshNode {
    /// A node with the given configuration and key that has carried out no
    /// task and reports to no relay.
    pub fn new(config: &Config, key: NodeKey) -> (node: MeshNode)
        ensures
            node@.config == config@,
            node@.key_encoding == key@.encoded,
            node@.peer_id == key@.peer_id,
            node@.task_count == 0,
            node@.relay is None,
    {
        MeshNode { config: config.copy(), key, task_count: 0, relay_client: None }
    }

    /// Reports finished tasks to `client` from now on.
    pub fn set_relay_client(&mut self, client: RelayClient)
        ensures
            final(self)@ == (MeshNodeView { relay: Some(client@), ..old(self)@ }),
    {
        self.relay_client = Some(client);
    }

    /// The node's configuration.
    pub fn config(&self) -> (c: &Config)
        ensures
            c@ == self@.config,
    {
        &self.config
    }

    /// The node's key.
    pub fn key(&self) -> (k: &NodeKey)
        ensures
            k@.encoded == self@.key_encoding,
            k@.peer_id == self@.peer_id,
            k.wf(),
    {
        self.key.check_wf();
        &self.key
    }

    /// The number of tasks the node has been asked to carry out.
    pub fn task_count(&self) -> (n: u32)
        ensures
            n == self@.task_count,
    {
        self.task_count
    }

    /// The address to dial for the text `addr`: the bytes of the
    /// multiaddress it parses as, or `InvalidAddress` where it is not one.
    pub fn dial(&self, addr: &str) -> (r: Result<Vec<u8>, MeshError>)
        ensures
            r is Ok <==> multiaddr_parses(addr@),
            r matches Ok(a) ==> parsed_multiaddr(addr@) == Some(a@),
    {
        match parse_multiaddr(addr) {
            Ok(a) => Ok(a),
            Err(_) => Err(MeshError::InvalidAddress),
        }
    }

    /// The bytes of the address to listen on: all IPv4 interfaces on the
    /// configured port. It always parses, so this never fails.
    pub fn listen(&self) -> (r: Result<Vec<u8>, MeshError>)
        ensures
            r is Ok,
            r matches Ok(a) ==> parsed_multiaddr(listen_address_for(self@.config.port)) == Some(a@),
    {
        let text = listen_address(self.config.port);
        assert(text@ == listen_address_for(self.config.port));
        match parse_multiaddr(text.as_str()) {
            Ok(a) => Ok(a),
            Err(_) => Err(MeshError::InvalidAddress),
        }
    }

    /// The announcement of this node's capabilities, with the addresses it
    /// listens on.
    pub fn announce(&self, listen_addrs: Vec<String>) -> (a: CapabilityAnnouncement)
        ensures
            a@ == announcement_for(self@, listen_addrs.deep_view()),
    {
        CapabilityAnnouncement {
            agent_id: self.config.agent_name.clone(),
            agent_name: self.config.agent_name.clone(),
            peer_id: self.key.peer_id(),
            capabilities: clone_strings(&self.config.capabilities),
            version: String::from_str(version()),
            listen_addrs,
        }
    }

    /// How the node carries out a task request.
    pub fn process_task(&self, request: &TaskRequest) -> (plan: TaskPlan)
        ensures
            plan@ == task_plan(request@),
    {
        if is_shell(&request.capability) {
            TaskPlan::RunShell { command: shell_command(request.payload.as_str()) }
        } else {
            let error = String::from_str("unsupported capability: ").concat(
                request.capability.as_str(),
            );
            TaskPlan::Respond(
                TaskResponse {
                    task_id: request.task_id.clone(),
                    status: String::from_str("rejected"),
                    result: None,
                    error: Some(error),
                },
            )
        }
    }

    /// The pong of this node, up for `uptime_secs`.
    pub fn pong(&self, uptime_secs: u64) -> (p: Pong)
        ensures
            p@ == pong_for(self@, uptime_secs),
    {
        Pong {
            agent_name: self.config.agent_name.clone(),
            peer_id: self.key.peer_id(),
            uptime_secs,
            task_count: self.task_count,
        }
    }

    /// Takes one event: updates the node and says what to do next.
    pub fn handle_event(&mut self, event: MeshEvent) -> (action: MeshAction)
        requires
            can_take(old(self)@, event@),
        ensures
            (final(self)@, action@) == step(old(self)@, event@),
    {
        match event {
            MeshEvent::TaskRequested { request } => {
                self.task_count = self.task_count + 1;
                match self.process_task(&request) {
                    TaskPlan::RunShell { command } => MeshAction::RunShell {
                        task_id: request.task_id,
                        command,
                    },
                    TaskPlan::Respond(r) => MeshAction::SendTaskResponse(r),
                }
            },
            MeshEvent::ShellFinished { task_id, outcome } => {
                MeshAction::SendTaskResponse(finish_task(task_id, outcome))
            },
            MeshEvent::TaskAnswered { response } => match &self.relay_client {
                Some(c) => MeshAction::ReportToRelay(c.report_result(&response)),
                None => MeshAction::Idle,
            },
            MeshEvent::Pinged { uptime_secs } => MeshAction::SendPong(self.pong(uptime_secs)),
            MeshEvent::AnnounceDue { listen_addrs, connected_peers } => {
                let ping_peer: Option<usize> = if connected_peers > 0 {
                    Some(0)
                } else {
                    None
                };
                MeshAction::Announce { announcement: self.announce(listen_addrs), ping_peer }
            },
            MeshEvent::SendFailed { channel } => match channel {
                Channel::Task => MeshAction::Stop,
                Channel::Ping => MeshAction::Idle,
            },
            MeshEvent::Ponged => MeshAction::Idle,
            MeshEvent::Observed => MeshAction::Idle,
        }
    }
}

} // verus!

verus! {

/// Only a task request changes a node, and it adds exactly one to the task
/// count; the configuration, key, peer id and relay never change.
pub proof fn lemma_only_requests_count(node: MeshNodeView, event: MeshEventView)
    ensures
        step(node, event).0.config == node.config,
        step(node, event).0.key_encoding == node.key_encoding,
        step(node, event).0.peer_id == node.peer_id,
        step(node, event).0.relay == node.relay,
        event is TaskRequested ==> step(node, event).0.task_count == node.task_count + 1,
        !(event is TaskRequested) ==> step(node, event).0 == node,
{
}

/// A pong answered after a task request reports the request in its task count.
pub proof fn lemma_pong_counts_request(node: MeshNodeView, request: TaskRequestView, uptime_secs: u64)
    requires
        node.task_count < u32::MAX,
    ensures
        ({
            let after = step(node, MeshEventView::TaskRequested { request }).0;
            step(after, MeshEventView::Pinged { uptime_secs }).1 == MeshActionView::SendPong(
                PongView {
                    agent_name: node.config.agent_name,
                    peer_id: node.peer_id,
                    uptime_secs,
                    task_count: (node.task_count + 1) as u32,
                },
            )
        }),
{
}

/// Every answer to a task carries the task's id: a request is either
/// rejected with its own id or run in a shell under its own id, and a
/// finished shell run is answered under the id it was run for.
pub proof fn lemma_answers_carry_task_id(node: MeshNodeView, event: MeshEventView)
    ensures
        event matches MeshEventView::TaskRequested { request } ==> match step(node, event).1 {
            MeshActionView::SendTaskResponse(r) => r.task_id == request.task_id,
            MeshActionView::RunShell { task_id, command: _ } => task_id == request.task_id,
            _ => false,
        },
        event matches MeshEventView::ShellFinished { task_id, outcome: _ } ==> match step(node, event).1 {
            MeshActionView::SendTaskResponse(r) => r.task_id == task_id,
            _ => false,
        },
{
}

/// A task request is run in a shell exactly when its capability is `bash`
/// or `shell`; otherwise it is answered `rejected`, with the capability named
/// in the error.
pub proof fn lemma_rejects_exactly_unserved(node: MeshNodeView, request: TaskRequestView)
    ensures
        (step(node, MeshEventView::TaskRequested { request }).1 is RunShell) <==> is_shell_capability(
            request.capability,
        ),
        !is_shell_capability(request.capability) ==> step(
            node,
            MeshEventView::TaskRequested { request },
        ).1 == MeshActionView::SendTaskResponse(
            TaskResponseView {
                task_id: request.task_id,
                status: "rejected"@,
                result: None,
                error: Some("unsupported capability: "@ + request.capability),
            },
        ),
{
}

/// A finished shell run is answered `completed` with its output, or
/// `failed` with its error, and never both.
pub proof fn lemma_shell_answers(task_id: Seq<char>, outcome: Result<Seq<char>, Seq<char>>)
    ensures
        outcome matches Ok(o) ==> shell_response(task_id, outcome).status == "completed"@
            && shell_response(task_id, outcome).result == Some(o)
            && shell_response(task_id, outcome).error is None,
        outcome matches Err(e) ==> shell_response(task_id, outcome).status == "failed"@
            && shell_response(task_id, outcome).result is None
            && shell_response(task_id, outcome).error == Some(e),
{
}

/// An answer to a task this node dispatched is reported to the relay
/// exactly when a relay is set, and the relay is told `completed` or `failed`.
pub proof fn lemma_answers_reported_to_relay(node: MeshNodeView, response: TaskResponseView)
    ensures
        (step(node, MeshEventView::TaskAnswered { response }).1 is ReportToRelay) <==> node.relay
            is Some,
        step(node, MeshEventView::TaskAnswered { response }).1 matches MeshActionView::ReportToRelay(
            report,
        ) ==> report.status == "completed"@ || report.status == "failed"@,
{
    crate::relay::lemma_reported_status(response.status);
}

/// When announcements are due the node announces itself with the addresses
/// it listens on, and pings the first connected peer where there is one.
pub proof fn lemma_announce_and_ping(
    node: MeshNodeView,
    listen_addrs: Seq<Seq<char>>,
    connected_peers: usize,
)
    ensures
        ({
            let action = step(
                node,
                (MeshEventView::AnnounceDue { listen_addrs, connected_peers }),
            ).1;
            &&& action matches MeshActionView::Announce { announcement, ping_peer }
            &&& announcement.agent_id == node.config.agent_name
            &&& announcement.agent_name == node.config.agent_name
            &&& announcement.peer_id == node.peer_id
            &&& announcement.capabilities == node.config.capabilities
            &&& announcement.version == "0.1.0"@
            &&& announcement.listen_addrs == listen_addrs
            &&& (ping_peer is Some <==> connected_peers > 0)
            &&& (ping_peer matches Some(i) ==> i == 0)
        }),
{
}

/// A failed send of a task answer stops the node; a failed pong does not.
pub proof fn lemma_stops_only_on_task_send_failure(node: MeshNodeView, event: MeshEventView)
    ensures
        (step(node, event).1 is Stop) <==> (event == (MeshEventView::SendFailed {
            channel: Channel::Task,
        })),
{
}

} // verus!

verus! {

/// A pong reports the node's agent name and peer id, exactly the uptime it
/// is given, and the node's task count, whatever that count is; the step on
/// a ping answers with that pong and changes nothing.
pub proof fn lemma_pong_reports_uptime_and_count(node: MeshNodeView, uptime_secs: u64)
    ensures
        pong_for(node, uptime_secs).agent_name == node.config.agent_name,
        pong_for(node, uptime_secs).peer_id == node.peer_id,
        pong_for(node, uptime_secs).uptime_secs == uptime_secs,
        pong_for(node, uptime_secs).task_count == node.task_count as u32,
        step(node, (MeshEventView::Pinged { uptime_secs })).0 == node,
        ({
            let action = step(node, MeshEventView::Pinged { uptime_secs }).1;
            &&& action matches MeshActionView::SendPong(p)
            &&& p.uptime_secs == uptime_secs
            &&& p.task_count == node.task_count as u32
            &&& p.agent_name == node.config.agent_name
            &&& p.peer_id == node.peer_id
        }),
{
}

/// Exactly the capabilities `bash` and `shell` run in a shell; a request for
/// any other capability is answered `rejected`, with no result and the error
/// `unsupported capability: <capability>`, under the request's id.
pub proof fn lemma_only_bash_and_shell_run(node: MeshNodeView, request: TaskRequestView)
    ensures
        is_shell_capability(request.capability) <==> (request.capability == "bash"@
            || request.capability == "shell"@),
        (request.capability == "bash"@ || request.capability == "shell"@) ==> step(
            node,
            MeshEventView::TaskRequested { request },
        ).1 is RunShell,
        !(request.capability == "bash"@ || request.capability == "shell"@) ==> ({
            let action = step(node, MeshEventView::TaskRequested { request }).1;
            &&& action matches MeshActionView::SendTaskResponse(r)
            &&& r.task_id == request.task_id
            &&& r.status == "rejected"@
            &&& r.result is None
            &&& r.error == Some("unsupported capability: "@ + request.capability)
        }),
{
}

/// A shell task runs the payload's `command` field exactly as given, however
/// long it is, and `echo hello` only where the payload has no such field.
pub proof fn lemma_shell_runs_payload_command(node: MeshNodeView, request: TaskRequestView)
    ensures
        json_command_field(request.payload) matches Some(c) ==> shell_command_for(request.payload)
            == c,
        json_command_field(request.payload) is None ==> shell_command_for(request.payload)
            == "echo hello"@,
        (request.capability == "bash"@ || request.capability == "shell"@) ==> ({
            let action = step(node, MeshEventView::TaskRequested { request }).1;
            &&& action matches MeshActionView::RunShell { task_id, command }
            &&& task_id == request.task_id
            &&& json_command_field(request.payload) matches Some(c) ==> command == c
            &&& json_command_field(request.payload) is None ==> command == "echo hello"@
        }),
{
}

} // verus!
