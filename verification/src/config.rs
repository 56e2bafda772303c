//! Proxy nodes and the Shoes configuration that is generated from them.

use vstd::prelude::*;
use vstd::string::*;
use crate::text::{decimal, decimal_string};

verus! {

/// A proxy node as the panel stores it.
pub struct Node {
    pub id: String,
    pub name: String,
    /// vmess | vless | ss | trojan | socks5 | http | ...
    pub protocol: String,
    pub server: String,
    pub port: i64,
    /// Raw Shoes listener/upstream YAML snippet.
    pub config_yaml: String,
    pub enabled: bool,
    pub created_at: String,
    pub updated_at: String,
}

/// The first document of every generated configuration: a local mixed
/// (SOCKS5/HTTP) listener on `127.0.0.1:port`.
pub open spec fn config_header(port: u16) -> Seq<char> {
    "# auto-generated by KiteA\n- address: 127.0.0.1:"@ + decimal(port as nat)
        + "\n  protocol:\n    type: mixed\n"@
}

/// The document contributed by one node: a comment naming it, then its YAML.
pub open spec fn node_snippet(n: Node) -> Seq<char> {
    "# node: "@ + n.name@ + " ("@ + n.protocol@ + ")\n"@ + n.config_yaml@
}

/// The separator between YAML documents.
pub open spec fn doc_separator() -> Seq<char> {
    "\n---\n"@
}

/// The configuration for `nodes`: the header, then the snippet of each
/// enabled node in order, separated by `\n---\n`.
pub open spec fn shoes_config(nodes: Seq<Node>, port: u16) -> Seq<char>
    decreases nodes.len(),
{
    if nodes.len() == 0 {
        config_header(port)
    } else {
        let prev = shoes_config(nodes.drop_last(), port);
        if nodes.last().enabled {
            prev + doc_separator() + node_snippet(nodes.last())
        } else {
            prev
        }
    }
}

/// Combines all enabled nodes into a Shoes configuration, after a local
/// mixed listener on `local_port`.
pub fn build_shoes_config(nodes: &[Node], local_port: u16) -> (r: String)
    ensures
        r@ == shoes_config(nodes@, local_port),
{
    let mut out = String::new();
    out.append("# auto-generated by KiteA\n- address: 127.0.0.1:");
    let port_text = decimal_string(local_port);
    out.append(port_text.as_str());
    out.append("\n  protocol:\n    type: mixed\n");
    proof {
        assert(out@ =~= config_header(local_port));
        assert(nodes@.subrange(0, 0).len() == 0);
    }
    let mut i: usize = 0;
    while i < nodes.len()
        invariant
            i <= nodes@.len(),
            out@ == shoes_config(nodes@.subrange(0, i as int), local_port),
        decreases nodes@.len() - i,
    {
        let node = &nodes[i];
        proof {
            assert(nodes@.subrange(0, i + 1).drop_last() =~= nodes@.subrange(0, i as int));
            assert(nodes@.subrange(0, i + 1).last() == nodes@[i as int]);
        }
        if node.enabled {
            let ghost before = out@;
            out.append("\n---\n");
            out.append("# node: ");
            out.append(node.name.as_str());
            out.append(" (");
            out.append(node.protocol.as_str());
            out.append(")\n");
            out.append(node.config_yaml.as_str());
            proof {
                assert(out@ =~= before + doc_separator() + node_snippet(*node));
            }
        }
        i = i + 1;
    }
    proof {
        assert(nodes@.subrange(0, nodes@.len() as int) =~= nodes@);
    }
    out
}


/// Whether a node takes part in the generated configuration.
pub open spec fn is_enabled(n: Node) -> bool {
    n.enabled
}

/// Disabled nodes have no effect on the generated configuration: it is the
/// configuration of the enabled nodes alone, in their order.
pub proof fn lemma_config_ignores_disabled(nodes: Seq<Node>, port: u16)
    ensures
        shoes_config(nodes, port) == shoes_config(nodes.filter(|n: Node| is_enabled(n)), port),
    decreases nodes.len(),
{
    reveal_with_fuel(Seq::<_>::filter, 1);
    if nodes.len() > 0 {
        let f = nodes.filter(|n: Node| is_enabled(n));
        let g = nodes.drop_last().filter(|n: Node| is_enabled(n));
        lemma_config_ignores_disabled(nodes.drop_last(), port);
        if nodes.last().enabled {
            assert(f == g.push(nodes.last()));
            assert(f.drop_last() =~= g);
        } else {
            assert(f == g);
        }
    }
}

/// Every generated configuration starts with the local listener.
pub proof fn lemma_config_starts_with_header(nodes: Seq<Node>, port: u16)
    ensures
        crate::text::has_prefix(shoes_config(nodes, port), config_header(port)),
    decreases nodes.len(),
{
    if nodes.len() == 0 {
        assert(shoes_config(nodes, port).subrange(0, config_header(port).len() as int)
            =~= config_header(port));
    } else {
        lemma_config_starts_with_header(nodes.drop_last(), port);
        let prev = shoes_config(nodes.drop_last(), port);
        if nodes.last().enabled {
            let whole = prev + doc_separator() + node_snippet(nodes.last());
            assert(whole.subrange(0, config_header(port).len() as int) =~= prev.subrange(
                0,
                config_header(port).len() as int,
            ));
        }
    }
}


/// Adding an enabled node at the end adds one document: the separator, a
/// comment line naming the node and its protocol, then the node's YAML in
/// full.
pub proof fn lemma_enabled_node_appends(nodes: Seq<Node>, n: Node, port: u16)
    requires
        n.enabled,
    ensures
        shoes_config(nodes.push(n), port) == shoes_config(nodes, port) + "\n---\n"@
            + "# node: "@ + n.name@ + " ("@ + n.protocol@ + ")\n"@ + n.config_yaml@,
{
    assert(nodes.push(n).drop_last() =~= nodes);
    assert(nodes.push(n).last() == n);
    let prev = shoes_config(nodes, port);
    assert(prev + doc_separator() + node_snippet(n) =~= prev + "\n---\n"@ + "# node: "@ + n.name@
        + " ("@ + n.protocol@ + ")\n"@ + n.config_yaml@);
}

/// Adding a disabled node changes nothing.
pub proof fn lemma_disabled_node_adds_nothing(nodes: Seq<Node>, n: Node, port: u16)
    requires
        !n.enabled,
    ensures
        shoes_config(nodes.push(n), port) == shoes_config(nodes, port),
{
    assert(nodes.push(n).drop_last() =~= nodes);
}

/// The configuration of one enabled node: the local mixed listener on the
/// port, then the node's document with its YAML unchanged.
pub proof fn lemma_single_node_config(n: Node, port: u16)
    requires
        n.enabled,
    ensures
        shoes_config(seq![n], port) == "# auto-generated by KiteA\n- address: 127.0.0.1:"@ + decimal(
            port as nat,
        ) + "\n  protocol:\n    type: mixed\n"@ + "\n---\n"@ + "# node: "@ + n.name@ + " ("@
            + n.protocol@ + ")\n"@ + n.config_yaml@,
{
    let empty = Seq::<Node>::empty();
    assert(empty.push(n) =~= seq![n]);
    lemma_enabled_node_appends(empty, n, port);
    assert(shoes_config(empty, port) == config_header(port));
}

/// Whatever the nodes, the configuration ends with the last enabled node's
/// YAML, unchanged.
pub proof fn lemma_config_ends_with_yaml(nodes: Seq<Node>, n: Node, port: u16)
    requires
        n.enabled,
    ensures
        crate::text::has_suffix(shoes_config(nodes.push(n), port), n.config_yaml@),
{
    lemma_enabled_node_appends(nodes, n, port);
    let whole = shoes_config(nodes.push(n), port);
    let y = n.config_yaml@;
    assert(whole.subrange(whole.len() - y.len(), whole.len() as int) =~= y);
}

} // verus!
