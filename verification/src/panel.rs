//! The rules of the panel's settings, first-run check and proxy control.

use vstd::prelude::*;
use vstd::string::*;
use crate::api::{ApiError, is_bad_request};
use crate::config::{Node, build_shoes_config, shoes_config};
use crate::process::{Launch, ShoesProcess, WaitStatus, msg_already_running};
use crate::text::{decimal, decimal_string, local_port_setting, parse_u16, same_text};

verus! {

/// Whether the panel still needs its first account.
pub fn setup_needed(user_count: i64) -> (r: bool)
    ensures
        r == (user_count == 0),
{
    user_count == 0
}

/// The settings an admin may change.
pub open spec fn is_setting_key(key: Seq<char>) -> bool {
    ||| key == "shoes_binary"@
    ||| key == "local_port"@
    ||| key == "log_level"@
}

pub open spec fn msg_unknown_setting() -> Seq<char> {
    "Unknown setting key"@
}

/// Accepts the three known setting keys and refuses any other.
pub fn check_setting_key(key: &str) -> (r: Result<(), ApiError>)
    ensures
        is_setting_key(key@) ==> r is Ok,
        !is_setting_key(key@) ==> (r matches Err(e) && is_bad_request(e, msg_unknown_setting())),
{
    if same_text(key, "shoes_binary") || same_text(key, "local_port") || same_text(
        key,
        "log_level",
    ) {
        Ok(())
    } else {
        Err(ApiError::BadRequest(String::from_str("Unknown setting key")))
    }
}

/// The Shoes binary used at startup: the one named by the environment, else
/// the stored setting where it is not empty, else `shoes`.
pub fn startup_binary(from_env: Option<String>, stored: String) -> (r: String)
    ensures
        match from_env {
            Some(v) => r == v,
            None => if stored@.len() == 0 {
                r@ == "shoes"@
            } else {
                r == stored
            },
        },
{
    match from_env {
        Some(v) => v,
        None => {
            if stored.as_str().unicode_len() == 0 {
                String::from_str("shoes")
            } else {
                stored
            }
        },
    }
}

/// The local port that the settings give (1080 where the text does not parse).
pub open spec fn port_of(text: Seq<char>) -> u16 {
    match parse_u16(text) {
        Some(p) => p,
        None => 1080u16,
    }
}

/// What the status endpoint reports.
pub struct StatusResp {
    pub running: bool,
    pub pid: Option<u32>,
    pub local_port: u16,
    pub node_count: usize,
}

/// The proxy's status: whether it runs, its child's id only while it runs, the
/// configured local port and the number of enabled nodes.
pub fn status_report(
    process: &ShoesProcess,
    wait: WaitStatus,
    local_port_text: &str,
    node_count: usize,
) -> (r: StatusResp)
    ensures
        r.running == process.running(wait),
        r.pid == (if process.running(wait) {
            process.pid
        } else {
            None
        }),
        r.local_port == port_of(local_port_text@),
        r.node_count == node_count,
{
    let running = process.is_running(wait);
    let pid = if running {
        process.pid
    } else {
        None
    };
    StatusResp { running, pid, local_port: local_port_setting(local_port_text), node_count }
}

/// The configuration that the proxy would run with.
pub fn proxy_config_yaml(nodes: &[Node], local_port_text: &str) -> (r: String)
    ensures
        r@ == shoes_config(nodes@, port_of(local_port_text@)),
{
    build_shoes_config(nodes, local_port_setting(local_port_text))
}

pub open spec fn msg_no_nodes() -> Seq<char> {
    "No enabled nodes found. Please add at least one node."@
}

/// The text of a failed start.
pub open spec fn start_failure(detail: Seq<char>) -> Seq<char> {
    "Failed to start shoes: "@ + detail
}

/// The text of a failed start, with the reason.
pub fn start_failed_message(detail: &str) -> (r: String)
    ensures
        r@ == start_failure(detail@),
{
    let mut m = String::from_str("Failed to start shoes: ");
    m.append(detail);
    m
}

/// The text of a successful start.
pub fn started_message(local_port: u16) -> (r: String)
    ensures
        r@ == "Shoes started on 127.0.0.1:"@ + decimal(local_port as nat),
{
    let mut m = String::from_str("Shoes started on 127.0.0.1:");
    let port = decimal_string(local_port);
    m.append(port.as_str());
    m
}

/// What starting the proxy takes, once decided.
pub struct StartPlan {
    pub launch: Launch,
    pub local_port: u16,
}

/// Decides a start of the proxy from the enabled nodes: refused without
/// nodes; otherwise the stored binary (where set) becomes the one to run, and
/// the start is refused while Shoes runs; else the configuration to write and
/// the program to run.
pub fn plan_proxy_start(
    nodes: &[Node],
    local_port_text: &str,
    stored_binary: String,
    process: &mut ShoesProcess,
    wait: WaitStatus,
) -> (r: Result<StartPlan, ApiError>)
    ensures
        nodes@.len() == 0 ==> (r matches Err(e) && is_bad_request(e, msg_no_nodes())
            && *final(process) == *old(process)),
        nodes@.len() > 0 ==> {
            &&& final(process).pid == old(process).pid
            &&& final(process).config_path == old(process).config_path
            &&& final(process).binary_path == (if stored_binary@.len() == 0 {
                old(process).binary_path
            } else {
                stored_binary
            })
            &&& old(process).running(wait) ==> (r matches Err(e) && is_bad_request(
                e,
                start_failure(msg_already_running()),
            ))
            &&& !old(process).running(wait) ==> (r matches Ok(plan) && plan.local_port == port_of(
                local_port_text@,
            ) && plan.launch.config_text@ == shoes_config(nodes@, plan.local_port)
                && plan.launch.config_path == old(process).config_path && plan.launch.program
                == final(process).binary_path)
        },
{
    if nodes.len() == 0 {
        return Err(
            ApiError::BadRequest(
                String::from_str("No enabled nodes found. Please add at least one node."),
            ),
        );
    }
    let local_port = local_port_setting(local_port_text);
    let yaml = build_shoes_config(nodes, local_port);
    process.use_binary(stored_binary);
    match process.start(wait, yaml) {
        Ok(launch) => Ok(StartPlan { launch, local_port }),
        Err(e) => {
            let detail = e.message();
            Err(ApiError::BadRequest(start_failed_message(detail.as_str())))
        },
    }
}

} // verus!
