use xmrt_mesh::protocol::TaskResponse;
use xmrt_mesh::relay::RelayClient;

fn client() -> RelayClient {
    RelayClient::new(
        "http://localhost:8081".to_string(),
        "eliza-dev",
        &["bash".to_string(), "git".to_string()],
    )
}

fn response(status: &str) -> TaskResponse {
    TaskResponse {
        task_id: "task-42".to_string(),
        status: status.to_string(),
        result: Some("out".to_string()),
        error: Some("err".to_string()),
    }
}

#[test]
fn relay_urls() {
    let c = client();
    assert_eq!(c.base_url(), "http://localhost:8081");
    assert_eq!(c.agent_name(), "eliza-dev");
    assert_eq!(c.registration_url(), "http://localhost:8081/api/v1/agents");
    assert_eq!(c.pending_tasks_url(), "http://localhost:8081/api/v1/tasks?status=pending");
    assert_eq!(c.health_url(), "http://localhost:8081/health");
}

#[test]
fn completed_task_is_reported_completed() {
    let r = client().report_result(&response("completed"));
    assert_eq!(r.url, "http://localhost:8081/api/v1/tasks/task-42");
    assert_eq!(r.status, "completed");
    assert_eq!(r.result, Some("out".to_string()));
    assert_eq!(r.error, Some("err".to_string()));
}

#[test]
fn other_statuses_are_reported_failed() {
    for s in ["failed", "rejected", "", "Completed", "completed "] {
        assert_eq!(client().report_result(&response(s)).status, "failed");
    }
}

#[test]
fn client_copy_is_equal() {
    assert_eq!(client().copy(), client());
}

#[test]
fn relay_http_timeout_is_ten_seconds() {
    assert_eq!(xmrt_mesh::relay::http_timeout_secs(), 10);
}
