use xmrt_mesh::config::Config;
use xmrt_mesh::identity::NodeKey;
use xmrt_mesh::mesh::{
    command_or_default, finish_task, listen_address, shell_command, Channel, MeshAction, MeshError, MeshEvent,
    MeshNode, TaskPlan,
};
use xmrt_mesh::protocol::{CapabilityAnnouncement, Pong, TaskRequest, TaskResponse};
use xmrt_mesh::relay::{RelayClient, ResultReport};

fn node_with(cfg: &Config) -> (MeshNode, String) {
    let keypair = libp2p::identity::Keypair::generate_ed25519();
    let key = NodeKey::from_protobuf(keypair.to_protobuf_encoding().unwrap()).unwrap();
    let peer_id = keypair.public().to_peer_id().to_string();
    (MeshNode::new(cfg, key), peer_id)
}

fn node() -> (MeshNode, String) {
    let mut cfg = Config::default();
    cfg.agent_name = "eliza-dev".to_string();
    cfg.capabilities = vec!["bash".to_string(), "python".to_string()];
    node_with(&cfg)
}

fn request(capability: &str, payload: &str) -> TaskRequest {
    TaskRequest {
        task_id: "t-7".to_string(),
        title: "title".to_string(),
        description: "desc".to_string(),
        capability: capability.to_string(),
        priority: 1,
        payload: payload.to_string(),
    }
}

#[test]
fn shell_command_is_payload_command() {
    assert_eq!(shell_command(r#"{"command":"ls -la"}"#), "ls -la");
    assert_eq!(shell_command(r#"{"other":1,"command":"uname"}"#), "uname");
}

#[test]
fn shell_command_defaults_to_echo_hello() {
    assert_eq!(shell_command("{}"), "echo hello");
    assert_eq!(shell_command("null"), "echo hello");
    assert_eq!(shell_command(r#"{"command":5}"#), "echo hello");
    assert_eq!(shell_command("not json"), "echo hello");
    assert_eq!(shell_command(r#"["command"]"#), "echo hello");
}

#[test]
fn bash_and_shell_tasks_run_the_command() {
    let (n, _) = node();
    for cap in ["bash", "shell"] {
        assert_eq!(
            n.process_task(&request(cap, r#"{"command":"whoami"}"#)),
            TaskPlan::RunShell { command: "whoami".to_string() }
        );
    }
}

#[test]
fn other_capabilities_are_rejected() {
    let (n, _) = node();
    assert_eq!(
        n.process_task(&request("python", "{}")),
        TaskPlan::Respond(TaskResponse {
            task_id: "t-7".to_string(),
            status: "rejected".to_string(),
            result: None,
            error: Some("unsupported capability: python".to_string()),
        })
    );
    assert!(matches!(n.process_task(&request("Bash", "{}")), TaskPlan::Respond(_)));
}

#[test]
fn finished_shell_runs_are_answered() {
    assert_eq!(
        finish_task("t-1".to_string(), Ok("hello\n".to_string())),
        TaskResponse {
            task_id: "t-1".to_string(),
            status: "completed".to_string(),
            result: Some("hello\n".to_string()),
            error: None,
        }
    );
    assert_eq!(
        finish_task("t-2".to_string(), Err("No such file".to_string())),
        TaskResponse {
            task_id: "t-2".to_string(),
            status: "failed".to_string(),
            result: None,
            error: Some("No such file".to_string()),
        }
    );
}

#[test]
fn task_request_counts_and_plans() {
    let (mut n, _) = node();
    assert_eq!(n.task_count(), 0);
    let a = n.handle_event(MeshEvent::TaskRequested { request: request("bash", r#"{"command":"date"}"#) });
    assert_eq!(a, MeshAction::RunShell { task_id: "t-7".to_string(), command: "date".to_string() });
    assert_eq!(n.task_count(), 1);
    let b = n.handle_event(MeshEvent::TaskRequested { request: request("git", "{}") });
    assert!(matches!(b, MeshAction::SendTaskResponse(ref r) if r.status == "rejected" && r.task_id == "t-7"));
    assert_eq!(n.task_count(), 2);
}

#[test]
fn shell_finished_sends_response() {
    let (mut n, _) = node();
    let a = n.handle_event(MeshEvent::ShellFinished { task_id: "x".to_string(), outcome: Ok("out".to_string()) });
    assert_eq!(a, MeshAction::SendTaskResponse(finish_task("x".to_string(), Ok("out".to_string()))));
    assert_eq!(n.task_count(), 0);
}

#[test]
fn pong_reports_tasks_and_uptime() {
    let (mut n, peer_id) = node();
    n.handle_event(MeshEvent::TaskRequested { request: request("bash", "{}") });
    n.handle_event(MeshEvent::TaskRequested { request: request("bash", "{}") });
    let a = n.handle_event(MeshEvent::Pinged { uptime_secs: 77 });
    assert_eq!(
        a,
        MeshAction::SendPong(Pong {
            agent_name: "eliza-dev".to_string(),
            peer_id,
            uptime_secs: 77,
            task_count: 2,
        })
    );
}

#[test]
fn answers_are_reported_only_with_a_relay() {
    let (mut n, _) = node();
    let resp = TaskResponse {
        task_id: "t-9".to_string(),
        status: "completed".to_string(),
        result: Some("done".to_string()),
        error: None,
    };
    assert_eq!(n.handle_event(MeshEvent::TaskAnswered { response: resp.clone() }), MeshAction::Idle);
    n.set_relay_client(RelayClient::new("http://r:1".to_string(), "eliza-dev", &[]));
    assert_eq!(
        n.handle_event(MeshEvent::TaskAnswered { response: resp }),
        MeshAction::ReportToRelay(ResultReport {
            url: "http://r:1/api/v1/tasks/t-9".to_string(),
            status: "completed".to_string(),
            result: Some("done".to_string()),
            error: None,
        })
    );
}

#[test]
fn announce_due_announces_and_pings_first_peer() {
    let (mut n, peer_id) = node();
    let addrs = vec!["/ip4/127.0.0.1/tcp/9000".to_string()];
    let expected = CapabilityAnnouncement {
        agent_id: "eliza-dev".to_string(),
        agent_name: "eliza-dev".to_string(),
        peer_id,
        capabilities: vec!["bash".to_string(), "python".to_string()],
        version: "0.1.0".to_string(),
        listen_addrs: addrs.clone(),
    };
    assert_eq!(
        n.handle_event(MeshEvent::AnnounceDue { listen_addrs: addrs.clone(), connected_peers: 3 }),
        MeshAction::Announce { announcement: expected.clone(), ping_peer: Some(0) }
    );
    assert_eq!(
        n.handle_event(MeshEvent::AnnounceDue { listen_addrs: addrs.clone(), connected_peers: 0 }),
        MeshAction::Announce { announcement: expected.clone(), ping_peer: None }
    );
    assert_eq!(n.announce(addrs), expected);
}

#[test]
fn send_failures() {
    let (mut n, _) = node();
    assert_eq!(n.handle_event(MeshEvent::SendFailed { channel: Channel::Task }), MeshAction::Stop);
    assert_eq!(n.handle_event(MeshEvent::SendFailed { channel: Channel::Ping }), MeshAction::Idle);
}

#[test]
fn observed_events_change_nothing() {
    let (mut n, _) = node();
    assert_eq!(n.handle_event(MeshEvent::Observed), MeshAction::Idle);
    assert_eq!(n.handle_event(MeshEvent::Ponged), MeshAction::Idle);
    assert_eq!(n.task_count(), 0);
    assert_eq!(n.config(), &{
        let mut c = Config::default();
        c.agent_name = "eliza-dev".to_string();
        c.capabilities = vec!["bash".to_string(), "python".to_string()];
        c
    });
}

#[test]
fn listen_address_text() {
    assert_eq!(listen_address(9000), "/ip4/0.0.0.0/tcp/9000");
    assert_eq!(listen_address(0), "/ip4/0.0.0.0/tcp/0");
    assert_eq!(listen_address(65535), "/ip4/0.0.0.0/tcp/65535");
}

#[test]
fn listen_and_dial_addresses() {
    let (n, _) = node();
    let listen = libp2p::Multiaddr::try_from(n.listen().unwrap()).unwrap();
    assert_eq!(listen.to_string(), "/ip4/0.0.0.0/tcp/9000");
    let dial = libp2p::Multiaddr::try_from(n.dial("/ip4/192.168.14.115/tcp/9000").unwrap()).unwrap();
    assert_eq!(dial.to_string(), "/ip4/192.168.14.115/tcp/9000");
    assert_eq!(n.dial("192.168.14.115:9000").unwrap_err(), MeshError::InvalidAddress);
    assert_eq!(n.dial("/ip4/not-an-ip/tcp/1").unwrap_err(), MeshError::InvalidAddress);
}

#[test]
fn node_key_peer_id_matches() {
    let keypair = libp2p::identity::Keypair::generate_ed25519();
    let encoded = keypair.to_protobuf_encoding().unwrap();
    let key = NodeKey::from_protobuf(encoded.clone()).unwrap();
    let n = MeshNode::new(&Config::default(), key);
    assert_eq!(n.key().peer_id(), keypair.public().to_peer_id().to_string());
    assert_eq!(n.key().encoded(), &encoded);
}

#[test]
fn command_field_or_echo_hello() {
    assert_eq!(command_or_default(Some("ls".to_string())), "ls");
    assert_eq!(command_or_default(Some(String::new())), "");
    assert_eq!(command_or_default(None), "echo hello");
}

#[test]
fn swarm_timing_constants() {
    assert_eq!(xmrt_mesh::mesh::task_request_timeout_secs(), 60);
    assert_eq!(xmrt_mesh::mesh::ping_request_timeout_secs(), 10);
    assert_eq!(xmrt_mesh::mesh::identify_interval_secs(), 60);
    assert_eq!(xmrt_mesh::mesh::gossip_heartbeat_secs(), 10);
    assert_eq!(xmrt_mesh::mesh::idle_connection_timeout_secs(), 120);
    assert_eq!(xmrt_mesh::mesh::announce_interval_secs(), 120);
    assert_eq!(xmrt_mesh::mesh::ping_protocol(), "/xmrt/mesh/ping/0.1.0");
    assert_eq!(xmrt_mesh::mesh::identify_protocol(), "/xmrt/mesh/0.1.0");
}

#[test]
fn message_id_is_decimal_of_hash() {
    assert_eq!(xmrt_mesh::mesh::message_id(0), "0");
    assert_eq!(xmrt_mesh::mesh::message_id(u64::MAX), u64::MAX.to_string());
}

#[test]
fn listen_always_parses_for_every_port() {
    let mut cfg = Config::default();
    for port in [0u16, 1, 80, 9000, 65535] {
        cfg.port = port;
        let (n, _) = node_with(&cfg);
        let addr = n.listen().unwrap();
        assert_eq!(addr, format!("/ip4/0.0.0.0/tcp/{port}").parse::<libp2p::Multiaddr>().unwrap().to_vec());
    }
}

#[test]
fn dial_gives_the_address_asked_for() {
    let (n, _) = node();
    for text in ["/ip4/192.168.14.115/tcp/9000", "/ip4/10.0.0.1/tcp/9000", "/dns4/relay.example/tcp/443"] {
        assert_eq!(n.dial(text).unwrap(), text.parse::<libp2p::Multiaddr>().unwrap().to_vec());
    }
}
