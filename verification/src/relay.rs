//! The relay daemon's REST interface as seen by a node: which URLs it asks
//! and what it reports about a finished task.

use vstd::prelude::*;

use crate::protocol::{clone_opt_string, TaskResponse, TaskResponseView};

verus! {

/// What the relay client holds: the relay's base URL, and the name and
/// capabilities of the agent it speaks for.
pub struct RelayClientView {
    pub base_url: Seq<char>,
    pub agent_name: Seq<char>,
    pub capabilities: Seq<Seq<char>>,
}

/// Client side of the relay daemon: the base URL and the agent it speaks for.
#[derive(Debug, Clone, PartialEq, Eq)]
pub struct RelayClient {
    base_url: String,
    agent_name: String,
    capabilities: Vec<String>,
}

impl View for RelayClient {
    type V = RelayClientView;

    closed spec fn view(&self) -> RelayClientView {
        RelayClientView {
            base_url: self.base_url@,
            agent_name: self.agent_name@,
            capabilities: self.capabilities.deep_view(),
        }
    }
}

/// The report of a finished task for the relay: the URL to `PATCH`, and
/// the JSON body's `status`, `result` and `error` fields.
#[derive(Debug, Clone, PartialEq, Eq)]
pub struct ResultReport {
    pub url: String,
    pub status: String,
    pub result: Option<String>,
    pub error: Option<String>,
}

/// Seconds an HTTP request to the relay may take.
pub fn http_timeout_secs() -> (s: u64)
    ensures
        s == 10,
{
    10
}

/// What a task report says.
pub struct ResultReportView {
    pub url: Seq<char>,
    pub status: Seq<char>,
    pub result: Option<Seq<char>>,
    pub error: Option<Seq<char>>,
}

impl View for ResultReport {
    type V = ResultReportView;

    open spec fn view(&self) -> ResultReportView {
        ResultReportView {
            url: self.url@,
            status: self.status@,
            result: self.result.deep_view(),
            error: self.error.deep_view(),
        }
    }
}

/// The report of a finished task: `PATCH <base>/api/v1/tasks/<task_id>` with
/// the status mapped by `reported_status` and the result and error unchanged.
pub open spec fn result_report_for(client: RelayClientView, response: TaskResponseView) -> ResultReportView {
    ResultReportView {
        url: client.base_url + "/api/v1/tasks/"@ + response.task_id,
        status: reported_status(response.status),
        result: response.result,
        error: response.error,
    }
}

/// The status the relay is told: `completed` for a completed task, `failed`
/// for any other status.
pub open spec fn reported_status(status: Seq<char>) -> Seq<char> {
    if status == "completed"@ {
        "completed"@
    } else {
        "failed"@
    }
}

impl RelayClient {
    /// A client for the relay at `base_url`, speaking for the named agent.
    pub fn new(base_url: String, agent_name: &str, capabilities: &[String]) -> (r: RelayClient)
        ensures
            r@.base_url == base_url@,
            r@.agent_name == agent_name@,
            r@.capabilities == capabilities@.map_values(|s: String| s@),
    {
        let mut caps: Vec<String> = Vec::new();
        for i in 0..capabilities.len()
            invariant
                caps.len() == i,
                i <= capabilities@.len(),
                forall|j: int| 0 <= j < i ==> #[trigger] caps@[j]@ == capabilities@[j]@,
        {
            caps.push(capabilities[i].clone());
        }
        assert(caps.deep_view() =~= capabilities@.map_values(|s: String| s@));
        RelayClient { base_url, agent_name: String::from_str(agent_name), capabilities: caps }
    }

    /// A copy of the client.
    pub fn copy(&self) -> (r: RelayClient)
        ensures
            r@ == self@,
    {
        RelayClient {
            base_url: self.base_url.clone(),
            agent_name: self.agent_name.clone(),
            capabilities: crate::protocol::clone_strings(&self.capabilities),
        }
    }

    /// The relay's base URL.
    pub fn base_url(&self) -> (r: &str)
        ensures
            r@ == self@.base_url,
    {
        self.base_url.as_str()
    }

    /// The name of the agent the client speaks for.
    pub fn agent_name(&self) -> (r: &str)
        ensures
            r@ == self@.agent_name,
    {
        self.agent_name.as_str()
    }

    /// URL of the agent registry, asked on registration: `<base>/api/v1/agents`.
    pub fn registration_url(&self) -> (url: String)
        ensures
            url@ == self@.base_url + "/api/v1/agents"@,
    {
        self.base_url.clone().concat("/api/v1/agents")
    }

    /// URL of the pending task list: `<base>/api/v1/tasks?status=pending`.
    pub fn pending_tasks_url(&self) -> (url: String)
        ensures
            url@ == self@.base_url + "/api/v1/tasks?status=pending"@,
    {
        self.base_url.clone().concat("/api/v1/tasks?status=pending")
    }

    /// URL of the relay's health check, asked on a heartbeat: `<base>/health`.
    pub fn health_url(&self) -> (url: String)
        ensures
            url@ == self@.base_url + "/health"@,
    {
        self.base_url.clone().concat("/health")
    }

    /// The report of a finished task: `PATCH <base>/api/v1/tasks/<task_id>`
    /// with the status mapped to `completed` or `failed`, and the response's
    /// result and error passed on unchanged.
    pub fn report_result(&self, response: &TaskResponse) -> (r: ResultReport)
        ensures
            r@ == result_report_for(self@, response@),
    {
        let url = self.base_url.clone().concat("/api/v1/tasks/").concat(response.task_id.as_str());
        let completed = String::from_str("completed");
        let status = if response.status == completed {
            completed
        } else {
            String::from_str("failed")
        };
        ResultReport {
            url,
            status,
            result: clone_opt_string(&response.result),
            error: clone_opt_string(&response.error),
        }
    }
}

/// Every report tells the relay `completed` or `failed`, and `completed`
/// exactly when the task's own status was `completed`.
pub proof fn lemma_reported_status(status: Seq<char>)
    ensures
        reported_status(status) == "completed"@ || reported_status(status) == "failed"@,
        (reported_status(status) == "completed"@) <==> (status == "completed"@),
{
    reveal_strlit("completed");
    reveal_strlit("failed");
    assert("completed"@[0] != "failed"@[0]);
}

} // verus!

verus! {

/// Whatever the task's status, the relay is sent the task's own result and
/// error unchanged, at `<base>/api/v1/tasks/<task_id>`; only the status is
/// mapped, to `completed` for a completed task and `failed` otherwise.
pub proof fn lemma_report_keeps_result_and_error(client: RelayClientView, response: TaskResponseView)
    ensures
        result_report_for(client, response).url == client.base_url + "/api/v1/tasks/"@
            + response.task_id,
        result_report_for(client, response).result == response.result,
        result_report_for(client, response).error == response.error,
        response.status == "completed"@ ==> result_report_for(client, response).status
            == "completed"@,
        response.status != "completed"@ ==> result_report_for(client, response).status
            == "failed"@,
{
}

} // verus!
