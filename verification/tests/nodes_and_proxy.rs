use kite_a::api::{ApiError, ApiResp, Reply};
use kite_a::auth::Claims;
use kite_a::config::{build_shoes_config, Node};
use kite_a::nodes::{apply_node_update, new_node, node_from_draft, update_node, NodeDraft, NodePatch};
use kite_a::panel::{
    check_setting_key, plan_proxy_start, setup_needed, start_failed_message, started_message,
    startup_binary, status_report,
};
use kite_a::process::{ShoesProcess, WaitStatus};

fn bad_request(e: &ApiError) -> Option<&str> {
    match e {
        ApiError::BadRequest(m) => Some(m.as_str()),
        ApiError::Unauthorized | ApiError::Internal(_) => None,
    }
}

fn sample_node(enabled: bool) -> Node {
    Node {
        id: "n1".to_string(),
        name: "tokyo".to_string(),
        protocol: "vless".to_string(),
        server: "jp.example".to_string(),
        port: 443,
        config_yaml: "- address: jp.example:443\n".to_string(),
        enabled,
        created_at: "c".to_string(),
        updated_at: "u".to_string(),
    }
}

fn empty_patch() -> NodePatch {
    NodePatch { name: None, protocol: None, server: None, port: None, config_yaml: None, enabled: None }
}

fn same_node(a: &Node, b: &Node) -> bool {
    a.id == b.id && a.name == b.name && a.protocol == b.protocol && a.server == b.server
        && a.port == b.port && a.config_yaml == b.config_yaml && a.enabled == b.enabled
        && a.created_at == b.created_at && a.updated_at == b.updated_at
}

#[test]
fn patch_replaces_present_fields_only() {
    let patch = NodePatch {
        name: Some("osaka".to_string()),
        protocol: None,
        server: None,
        port: Some(8443),
        config_yaml: None,
        enabled: Some(false),
    };
    let n = apply_node_update(sample_node(true), patch, "now".to_string());
    assert_eq!(n.id, "n1");
    assert_eq!(n.name, "osaka");
    assert_eq!(n.protocol, "vless");
    assert_eq!(n.server, "jp.example");
    assert_eq!(n.port, 8443);
    assert!(!n.enabled);
    assert_eq!(n.created_at, "c");
    assert_eq!(n.updated_at, "now");
}

#[test]
fn empty_patch_only_moves_update_time() {
    let n = apply_node_update(sample_node(true), empty_patch(), "t2".to_string());
    let mut expected = sample_node(true);
    expected.updated_at = "t2".to_string();
    assert!(same_node(&n, &expected));
}

#[test]
fn patch_twice_is_patch_once() {
    let mk = || NodePatch {
        name: None,
        protocol: Some("trojan".to_string()),
        server: Some("s".to_string()),
        port: None,
        config_yaml: Some("y".to_string()),
        enabled: Some(true),
    };
    let once = apply_node_update(sample_node(false), mk(), "t".to_string());
    let twice = apply_node_update(
        apply_node_update(sample_node(false), mk(), "t".to_string()),
        mk(),
        "t".to_string(),
    );
    assert!(same_node(&once, &twice));
}

#[test]
fn two_patches_compose() {
    let first = NodePatch { name: Some("a".to_string()), port: Some(1), ..empty_patch() };
    let second = NodePatch { name: Some("b".to_string()), enabled: Some(false), ..empty_patch() };
    let n = apply_node_update(
        apply_node_update(sample_node(true), first, "t1".to_string()),
        second,
        "t2".to_string(),
    );
    let merged = NodePatch {
        name: Some("b".to_string()),
        port: Some(1),
        enabled: Some(false),
        ..empty_patch()
    };
    let m = apply_node_update(sample_node(true), merged, "t2".to_string());
    assert!(same_node(&n, &m));
}

#[test]
fn update_of_missing_node_is_refused() {
    let me = || Some(Claims { sub: "u1".to_string(), name: "a".to_string(), role: "user".to_string(), exp: 0 });
    assert!(matches!(update_node(None, Some(sample_node(true)), empty_patch()), Err(ApiError::Unauthorized)));
    let r = update_node(me(), None, empty_patch());
    assert_eq!(bad_request(&r.err().unwrap()), Some("Node not found"));
    let n = update_node(me(), Some(sample_node(true)), empty_patch()).ok().unwrap();
    assert_eq!(n.name, "tokyo");
    assert_ne!(n.updated_at, "u");
    assert!(n.updated_at.ends_with("+00:00"));
}

fn draft() -> NodeDraft {
    NodeDraft {
        name: "hk".to_string(),
        protocol: "ss".to_string(),
        server: "hk.example".to_string(),
        port: 8388,
        config_yaml: "cfg".to_string(),
    }
}

#[test]
fn new_nodes_are_enabled() {
    let n = node_from_draft(draft(), "id9".to_string(), "when".to_string());
    assert_eq!(n.id, "id9");
    assert_eq!(n.name, "hk");
    assert!(n.enabled);
    assert_eq!(n.created_at, "when");
    assert_eq!(n.updated_at, "when");
    let m = new_node(draft()).ok().unwrap();
    assert_eq!(m.id.len(), 36);
    assert_eq!(m.id.chars().nth(14), Some('4'));
    assert!(m.created_at.ends_with("+00:00"));
    assert!(m.enabled);
    assert_eq!(m.created_at, m.updated_at);
    assert_eq!(m.port, 8388);
}

#[test]
fn process_state_machine() {
    let mut p = ShoesProcess::new("shoes".to_string(), "cfg.yaml".to_string());
    assert!(!p.is_running(WaitStatus::Running));
    let launch = p.start(WaitStatus::Running, "yaml".to_string()).ok().unwrap();
    assert_eq!(launch.config_path, "cfg.yaml");
    assert_eq!(launch.config_text, "yaml");
    assert_eq!(launch.program, "shoes");
    p.record_spawn(42);
    assert!(p.is_running(WaitStatus::Running));
    assert!(!p.is_running(WaitStatus::Exited));
    assert!(!p.is_running(WaitStatus::Unknown));
    let e = p.start(WaitStatus::Running, "yaml".to_string()).err().unwrap();
    assert_eq!(e.message(), "Shoes is already running");
    // an exited child does not block a new start
    assert!(p.start(WaitStatus::Exited, "yaml".to_string()).is_ok());
    assert_eq!(p.stop(), Some(42));
    assert_eq!(p.stop(), None);
    assert!(!p.is_running(WaitStatus::Running));
}

#[test]
fn stored_binary_replaces_only_when_set() {
    let mut p = ShoesProcess::new("shoes".to_string(), "c".to_string());
    p.use_binary(String::new());
    assert_eq!(p.binary_path, "shoes");
    p.use_binary("/opt/shoes".to_string());
    assert_eq!(p.binary_path, "/opt/shoes");
}

#[test]
fn proxy_start_plans() {
    let mut p = ShoesProcess::new("shoes".to_string(), "rt.yaml".to_string());
    let r = plan_proxy_start(&[], "1080", "/bin/x".to_string(), &mut p, WaitStatus::Exited);
    assert_eq!(
        bad_request(&r.err().unwrap()),
        Some("No enabled nodes found. Please add at least one node.")
    );
    assert_eq!(p.binary_path, "shoes");
    let nodes = vec![sample_node(true)];
    let plan = plan_proxy_start(&nodes, "7000", "/bin/x".to_string(), &mut p, WaitStatus::Exited)
        .ok()
        .unwrap();
    assert_eq!(plan.local_port, 7000);
    assert_eq!(plan.launch.config_text, build_shoes_config(&nodes, 7000));
    assert_eq!(plan.launch.program, "/bin/x");
    assert_eq!(plan.launch.config_path, "rt.yaml");
    p.record_spawn(9);
    let r = plan_proxy_start(&nodes, "bad", String::new(), &mut p, WaitStatus::Running);
    assert_eq!(
        bad_request(&r.err().unwrap()),
        Some("Failed to start shoes: Shoes is already running")
    );
    assert_eq!(p.binary_path, "/bin/x");
}

#[test]
fn proxy_messages() {
    assert_eq!(started_message(1080), "Shoes started on 127.0.0.1:1080");
    assert_eq!(start_failed_message("no such file"), "Failed to start shoes: no such file");
}

#[test]
fn status_reports_pid_only_while_running() {
    let mut p = ShoesProcess::new("shoes".to_string(), "c".to_string());
    p.record_spawn(77);
    let s = status_report(&p, WaitStatus::Running, "1081", 3);
    assert!(s.running);
    assert_eq!(s.pid, Some(77));
    assert_eq!(s.local_port, 1081);
    assert_eq!(s.node_count, 3);
    let s = status_report(&p, WaitStatus::Exited, "x", 0);
    assert!(!s.running);
    assert_eq!(s.pid, None);
    assert_eq!(s.local_port, 1080);
}

#[test]
fn settings_and_first_run() {
    assert!(check_setting_key("shoes_binary").is_ok());
    assert!(check_setting_key("local_port").is_ok());
    assert!(check_setting_key("log_level").is_ok());
    let r = check_setting_key("jwt_secret");
    assert_eq!(bad_request(&r.err().unwrap()), Some("Unknown setting key"));
    assert!(setup_needed(0));
    assert!(!setup_needed(1));
    assert_eq!(startup_binary(Some("/env/shoes".to_string()), "db".to_string()), "/env/shoes");
    assert_eq!(startup_binary(None, "db".to_string()), "db");
    assert_eq!(startup_binary(None, String::new()), "shoes");
}

#[test]
fn reply_envelopes() {
    let r: Reply<u8> = ApiResp::ok(5);
    assert_eq!(r.status, 200);
    assert!(r.body.ok);
    assert_eq!(r.body.data, Some(5));
    assert_eq!(r.body.msg, None);
    let r: Reply<u8> = ApiResp::err("bad".to_string());
    assert_eq!(r.status, 400);
    assert!(!r.body.ok);
    assert_eq!(r.body.msg.as_deref(), Some("bad"));
    let r: Reply<u8> = ApiResp::unauthenticated();
    assert_eq!(r.status, 401);
    assert_eq!(r.body.msg.as_deref(), Some("Unauthorised"));
    let r: Reply<()> = ApiError::Unauthorized.into_reply();
    assert_eq!(r.status, 401);
    let r: Reply<()> = ApiError::BadRequest("x".to_string()).into_reply();
    assert_eq!(r.status, 400);
    assert_eq!(r.body.msg.as_deref(), Some("x"));
}
