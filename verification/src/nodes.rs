//! Creating and editing proxy nodes.

use vstd::prelude::*;
use vstd::string::*;
use crate::api::{ApiError, is_bad_request};
use crate::config::Node;
use crate::auth::{Claims, require_login};
use crate::system::{is_clock_stamp, is_machine_failure, msg_no_clock, new_uuid, now_rfc3339};
use crate::text::{has_suffix, is_uuid_v4_text};

verus! {

/// The fields of a node to create.
pub struct NodeDraft {
    pub name: String,
    pub protocol: String,
    pub server: String,
    pub port: i64,
    pub config_yaml: String,
}

/// An edit of a node: each field that is present replaces the node's.
pub struct NodePatch {
    pub name: Option<String>,
    pub protocol: Option<String>,
    pub server: Option<String>,
    pub port: Option<i64>,
    pub config_yaml: Option<String>,
    pub enabled: Option<bool>,
}

/// The present value, or else the current one.
pub open spec fn or_keep<T>(new: Option<T>, current: T) -> T {
    match new {
        Some(v) => v,
        None => current,
    }
}

/// `node` after `patch`, stamped with `now`; its id and creation time stay.
pub open spec fn patched(node: Node, patch: NodePatch, now: String) -> Node {
    Node {
        id: node.id,
        name: or_keep(patch.name, node.name),
        protocol: or_keep(patch.protocol, node.protocol),
        server: or_keep(patch.server, node.server),
        port: or_keep(patch.port, node.port),
        config_yaml: or_keep(patch.config_yaml, node.config_yaml),
        enabled: or_keep(patch.enabled, node.enabled),
        created_at: node.created_at,
        updated_at: now,
    }
}

/// The patch that changes nothing.
pub open spec fn empty_patch() -> NodePatch {
    NodePatch {
        name: None,
        protocol: None,
        server: None,
        port: None,
        config_yaml: None,
        enabled: None,
    }
}

pub open spec fn msg_node_not_found() -> Seq<char> {
    "Node not found"@
}

/// Applies `patch` to `node` and stamps it with `now`.
pub fn apply_node_update(node: Node, patch: NodePatch, now: String) -> (r: Node)
    ensures
        r == patched(node, patch, now),
        patch.name matches Some(v) ==> r.name == v,
        patch.name is None ==> r.name == node.name,
        patch.protocol matches Some(v) ==> r.protocol == v,
        patch.protocol is None ==> r.protocol == node.protocol,
        patch.server matches Some(v) ==> r.server == v,
        patch.server is None ==> r.server == node.server,
        patch.port matches Some(v) ==> r.port == v,
        patch.port is None ==> r.port == node.port,
        patch.config_yaml matches Some(v) ==> r.config_yaml == v,
        patch.config_yaml is None ==> r.config_yaml == node.config_yaml,
        patch.enabled matches Some(v) ==> r.enabled == v,
        patch.enabled is None ==> r.enabled == node.enabled,
        r.id == node.id,
        r.created_at == node.created_at,
        r.updated_at == now,
{
    let mut node = node;
    if let Some(v) = patch.name {
        node.name = v;
    }
    if let Some(v) = patch.protocol {
        node.protocol = v;
    }
    if let Some(v) = patch.server {
        node.server = v;
    }
    if let Some(v) = patch.port {
        node.port = v;
    }
    if let Some(v) = patch.config_yaml {
        node.config_yaml = v;
    }
    if let Some(v) = patch.enabled {
        node.enabled = v;
    }
    node.updated_at = now;
    node
}

/// Edits a node: a request without claims is refused with 401 before any
/// other work; then none found by id is refused with `Node not found`;
/// otherwise the node after `patch`, stamped with the current time in
/// RFC 3339 with offset `+00:00`.
pub fn update_node(claims: Option<Claims>, found: Option<Node>, patch: NodePatch) -> (r: Result<
    Node,
    ApiError,
>)
    ensures
        claims is None ==> (r matches Err(e) && e is Unauthorized),
        claims is Some ==> match found {
            None => r matches Err(e) && is_bad_request(e, msg_node_not_found()),
            Some(n) => match r {
                Ok(m) => m == patched(n, patch, m.updated_at) && has_suffix(
                    m.updated_at@,
                    "+00:00"@,
                ) && is_clock_stamp(m.updated_at@),
                Err(e) => e matches ApiError::Internal(t) && t@ == msg_no_clock(),
            },
        },
{
    if let Err(e) = require_login(claims) {
        return Err(e);
    }
    match found {
        None => Err(ApiError::BadRequest(String::from_str("Node not found"))),
        Some(n) => match now_rfc3339() {
            Ok(now) => Ok(apply_node_update(n, patch, now)),
            Err(e) => Err(e),
        },
    }
}

/// The node made from `draft` with the id `id` at the time `now`: enabled,
/// created and updated at `now`.
pub open spec fn node_from_draft_spec(draft: NodeDraft, id: String, now: String) -> Node {
    Node {
        id,
        name: draft.name,
        protocol: draft.protocol,
        server: draft.server,
        port: draft.port,
        config_yaml: draft.config_yaml,
        enabled: true,
        created_at: now,
        updated_at: now,
    }
}

/// A new node from `draft`: enabled, with a fresh id, created and updated at
/// `now`.
pub fn node_from_draft(draft: NodeDraft, id: String, now: String) -> (r: Node)
    ensures
        r == node_from_draft_spec(draft, id, now),
        r.id == id,
        r.name == draft.name,
        r.protocol == draft.protocol,
        r.server == draft.server,
        r.port == draft.port,
        r.config_yaml == draft.config_yaml,
        r.enabled,
        r.created_at == now,
        r.updated_at == now,
{
    let updated_at = now.clone();
    Node {
        id,
        name: draft.name,
        protocol: draft.protocol,
        server: draft.server,
        port: draft.port,
        config_yaml: draft.config_yaml,
        enabled: true,
        created_at: now,
        updated_at,
    }
}

/// A new node from `draft`, with a fresh random id and the current time.
pub fn new_node(draft: NodeDraft) -> (r: Result<Node, ApiError>)
    ensures
        r matches Ok(n) ==> {
            &&& n == node_from_draft_spec(draft, n.id, n.created_at)
            &&& n.name == draft.name
            &&& n.protocol == draft.protocol
            &&& n.server == draft.server
            &&& n.port == draft.port
            &&& n.config_yaml == draft.config_yaml
            &&& n.enabled
            &&& n.updated_at == n.created_at
            &&& is_uuid_v4_text(n.id@)
            &&& has_suffix(n.created_at@, "+00:00"@)
            &&& is_clock_stamp(n.created_at@)
        },
        r matches Err(e) ==> is_machine_failure(e),
{
    let id = match new_uuid() {
        Ok(id) => id,
        Err(e) => return Err(e),
    };
    let now = match now_rfc3339() {
        Ok(t) => t,
        Err(e) => return Err(e),
    };
    Ok(node_from_draft(draft, id, now))
}

/// An empty edit only moves the update time.
pub proof fn lemma_empty_patch_keeps_node(node: Node, now: String)
    ensures
        patched(node, empty_patch(), now) == (Node { updated_at: now, ..node }),
{
}

/// Applying the same edit twice is the same as applying it once.
pub proof fn lemma_patch_idempotent(node: Node, patch: NodePatch, now: String)
    ensures
        patched(patched(node, patch, now), patch, now) == patched(node, patch, now),
{
}

/// The later of two present values, else the earlier.
pub open spec fn later<T>(first: Option<T>, second: Option<T>) -> Option<T> {
    match second {
        Some(v) => Some(v),
        None => first,
    }
}

/// One edit that does what `first` then `second` do.
pub open spec fn merged(first: NodePatch, second: NodePatch) -> NodePatch {
    NodePatch {
        name: later(first.name, second.name),
        protocol: later(first.protocol, second.protocol),
        server: later(first.server, second.server),
        port: later(first.port, second.port),
        config_yaml: later(first.config_yaml, second.config_yaml),
        enabled: later(first.enabled, second.enabled),
    }
}

/// Two edits in a row are one edit in which the later wins on each field it
/// sets; the update time is the later one.
pub proof fn lemma_patches_compose(
    node: Node,
    first: NodePatch,
    second: NodePatch,
    t1: String,
    t2: String,
)
    ensures
        patched(patched(node, first, t1), second, t2) == patched(node, merged(first, second), t2),
{
}


/// An edit replaces exactly the fields it carries: each present field of the
/// patch becomes the node's, each absent one keeps the node's value; the id
/// and creation time stay and the update time is the edit's.
pub proof fn lemma_patch_fields(node: Node, patch: NodePatch, now: String)
    ensures
        patch.name matches Some(v) ==> patched(node, patch, now).name == v,
        patch.name is None ==> patched(node, patch, now).name == node.name,
        patch.protocol matches Some(v) ==> patched(node, patch, now).protocol == v,
        patch.protocol is None ==> patched(node, patch, now).protocol == node.protocol,
        patch.server matches Some(v) ==> patched(node, patch, now).server == v,
        patch.server is None ==> patched(node, patch, now).server == node.server,
        patch.port matches Some(v) ==> patched(node, patch, now).port == v,
        patch.port is None ==> patched(node, patch, now).port == node.port,
        patch.config_yaml matches Some(v) ==> patched(node, patch, now).config_yaml == v,
        patch.config_yaml is None ==> patched(node, patch, now).config_yaml == node.config_yaml,
        patch.enabled matches Some(v) ==> patched(node, patch, now).enabled == v,
        patch.enabled is None ==> patched(node, patch, now).enabled == node.enabled,
        patched(node, patch, now).id == node.id,
        patched(node, patch, now).created_at == node.created_at,
        patched(node, patch, now).updated_at == now,
{
}

/// A node made from a draft keeps each of the draft's fields in its own
/// place, is enabled, and is created and updated at the same time.
pub proof fn lemma_draft_fields(draft: NodeDraft, id: String, now: String)
    ensures
        node_from_draft_spec(draft, id, now).id == id,
        node_from_draft_spec(draft, id, now).name == draft.name,
        node_from_draft_spec(draft, id, now).protocol == draft.protocol,
        node_from_draft_spec(draft, id, now).server == draft.server,
        node_from_draft_spec(draft, id, now).port == draft.port,
        node_from_draft_spec(draft, id, now).config_yaml == draft.config_yaml,
        node_from_draft_spec(draft, id, now).enabled,
        node_from_draft_spec(draft, id, now).created_at == now,
        node_from_draft_spec(draft, id, now).updated_at == now,
{
}

} // verus!
