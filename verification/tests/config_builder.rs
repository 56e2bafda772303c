use kite_a::config::{build_shoes_config, Node};
use kite_a::panel::proxy_config_yaml;

fn node(name: &str, protocol: &str, yaml: &str, enabled: bool) -> Node {
    Node {
        id: format!("id-{}", name),
        name: name.to_string(),
        protocol: protocol.to_string(),
        server: "example.com".to_string(),
        port: 443,
        config_yaml: yaml.to_string(),
        enabled,
        created_at: "t0".to_string(),
        updated_at: "t0".to_string(),
    }
}

const HEADER_1080: &str =
    "# auto-generated by KiteA\n- address: 127.0.0.1:1080\n  protocol:\n    type: mixed\n";

#[test]
fn config_without_nodes_is_the_local_listener() {
    assert_eq!(build_shoes_config(&[], 1080), HEADER_1080);
    assert_eq!(
        build_shoes_config(&[], 7),
        "# auto-generated by KiteA\n- address: 127.0.0.1:7\n  protocol:\n    type: mixed\n"
    );
}

#[test]
fn config_joins_enabled_nodes_in_order() {
    let nodes = vec![
        node("a", "vless", "- address: a:443\n", true),
        node("b", "ss", "- address: b:8388\n", false),
        node("c", "trojan", "- address: c:443", true),
    ];
    let expected = format!(
        "{}\n---\n# node: a (vless)\n- address: a:443\n\n---\n# node: c (trojan)\n- address: c:443",
        HEADER_1080
    );
    assert_eq!(build_shoes_config(&nodes, 1080), expected);
}

#[test]
fn disabled_nodes_do_not_change_the_config() {
    let all = vec![
        node("a", "vless", "x", false),
        node("b", "ss", "y", true),
        node("c", "http", "z", false),
    ];
    let enabled = vec![node("b", "ss", "y", true)];
    assert_eq!(build_shoes_config(&all, 2000), build_shoes_config(&enabled, 2000));
}

#[test]
fn config_starts_with_header() {
    let nodes = vec![node("a", "vless", "x", true)];
    let out = build_shoes_config(&nodes, 1080);
    assert!(out.starts_with(HEADER_1080));
}

#[test]
fn proxy_config_uses_the_stored_port() {
    let nodes = vec![node("a", "socks5", "s", true)];
    assert_eq!(proxy_config_yaml(&nodes, "9050"), build_shoes_config(&nodes, 9050));
    assert_eq!(proxy_config_yaml(&nodes, "oops"), build_shoes_config(&nodes, 1080));
}
