use vstd::prelude::*;
use crate::constants::Direction;
use crate::dict::{dict_lookup, Dict, DictView};
use crate::shared::{PwGraphItem, PwGraphState, PwGraphStateView};
use crate::text::{decimal_string, u32_to_string};

verus! {

/// The node that `id` is recorded as a port of, with the port's direction.
pub open spec fn recorded_port(s: PwGraphStateView, id: u32) -> Option<(u32, Direction)> {
    match s.items.get(id) {
        Some(PwGraphItem::Port { node_id, direction }) => Some((node_id, direction)),
        _ => None,
    }
}

/// The node that the port `id` is recorded as belonging to.
pub open spec fn port_node(s: PwGraphStateView, id: u32) -> u32 {
    match s.items.get(id) {
        Some(PwGraphItem::Port { node_id, .. }) => node_id,
        _ => 0,
    }
}

/// The direction that the port `id` is recorded with.
pub open spec fn port_direction(s: PwGraphStateView, id: u32) -> Direction {
    match s.items.get(id) {
        Some(PwGraphItem::Port { direction, .. }) => direction,
        _ => Direction::Other(0),
    }
}

/// Whether a link can be made from `port_from` to `port_to`: the first must
/// be a recorded output port and the second a recorded input port.
pub open spec fn can_link(s: PwGraphStateView, port_from: u32, port_to: u32) -> bool {
    &&& recorded_port(s, port_from) matches Some((_, d)) && d == Direction::Output
    &&& recorded_port(s, port_to) matches Some((_, d)) && d == Direction::Input
}

/// The properties of the link that joins port `port_from` of node `node_from`
/// to port `port_to` of node `node_to`.
pub open spec fn link_properties(node_from: u32, port_from: u32, node_to: u32, port_to: u32) -> DictView {
    seq![
        ("link.output.node"@, decimal_string(node_to as nat)),
        ("link.output.port"@, decimal_string(port_to as nat)),
        ("link.input.node"@, decimal_string(node_from as nat)),
        ("link.input.port"@, decimal_string(port_from as nat)),
        ("object.linger"@, "1"@),
    ]
}

/// The properties of the controller's own pass-through node, named `name` and
/// described to the user as `description`.
pub open spec fn main_node_properties_spec(name: Seq<char>, description: Seq<char>) -> DictView {
    seq![
        ("node.name"@, name),
        ("node.description"@, description),
        ("factory.name"@, "support.null-audio-sink"@),
        ("media.class"@, "Audio/Sink"@),
        ("object.linger"@, "false"@),
    ]
}

/// A link's properties name, under their keys, the node and port that the link
/// reads from (`link.input.*`: the output port `port_from` and its node) and the
/// node and port it writes to (`link.output.*`: the input port `port_to` and its
/// node), each id in decimal, and ask the link to outlive the controller.
pub proof fn lemma_link_properties_keys(node_from: u32, port_from: u32, node_to: u32, port_to: u32)
    ensures
        dict_lookup(link_properties(node_from, port_from, node_to, port_to), "link.output.node"@)
            == Some(decimal_string(node_to as nat)),
        dict_lookup(link_properties(node_from, port_from, node_to, port_to), "link.output.port"@)
            == Some(decimal_string(port_to as nat)),
        dict_lookup(link_properties(node_from, port_from, node_to, port_to), "link.input.node"@)
            == Some(decimal_string(node_from as nat)),
        dict_lookup(link_properties(node_from, port_from, node_to, port_to), "link.input.port"@)
            == Some(decimal_string(port_from as nat)),
        dict_lookup(link_properties(node_from, port_from, node_to, port_to), "object.linger"@) == Some("1"@),
        link_properties(node_from, port_from, node_to, port_to).len() == 5,
{
    reveal_strlit("link.output.node");
    reveal_strlit("link.output.port");
    reveal_strlit("link.input.node");
    reveal_strlit("link.input.port");
    reveal_strlit("object.linger");
    let e = link_properties(node_from, port_from, node_to, port_to);
    assert("link.output.node"@[12] != "link.output.port"@[12]);
    assert("link.input.node"@.len() != "link.output.node"@.len());
    assert("link.input.port"@.len() != "link.output.node"@.len());
    assert("link.input.port"@.len() != "link.output.port"@.len());
    assert("link.input.node"@[11] != "link.input.port"@[11]);
    assert("object.linger"@[0] != "link.output.node"@[0]);
    assert("object.linger"@[0] != "link.input.node"@[0]);
    let e1 = e.drop_first();
    let e2 = e1.drop_first();
    let e3 = e2.drop_first();
    let e4 = e3.drop_first();
    assert(e1[0] == e[1] && e2[0] == e[2] && e3[0] == e[3] && e4[0] == e[4]);
    assert(e4.len() == 1);
    assert(e4.drop_first().len() == 0);
    assert(dict_lookup(e1, "link.output.port"@) == Some(decimal_string(port_to as nat)));
    assert(dict_lookup(e, "link.output.port"@) == dict_lookup(e1, "link.output.port"@));
    assert(dict_lookup(e2, "link.input.node"@) == Some(decimal_string(node_from as nat)));
    assert(dict_lookup(e1, "link.input.node"@) == dict_lookup(e2, "link.input.node"@));
    assert(dict_lookup(e, "link.input.node"@) == dict_lookup(e1, "link.input.node"@));
    assert(dict_lookup(e3, "link.input.port"@) == Some(decimal_string(port_from as nat)));
    assert(dict_lookup(e2, "link.input.port"@) == dict_lookup(e3, "link.input.port"@));
    assert(dict_lookup(e1, "link.input.port"@) == dict_lookup(e2, "link.input.port"@));
    assert(dict_lookup(e, "link.input.port"@) == dict_lookup(e1, "link.input.port"@));
    assert("object.linger"@.len() != "link.input.port"@.len());
    assert(dict_lookup(e4, "object.linger"@) == Some("1"@));
    assert(dict_lookup(e3, "object.linger"@) == dict_lookup(e4, "object.linger"@));
    assert(dict_lookup(e2, "object.linger"@) == dict_lookup(e3, "object.linger"@));
    assert(dict_lookup(e1, "object.linger"@) == dict_lookup(e2, "object.linger"@));
    assert(dict_lookup(e, "object.linger"@) == dict_lookup(e1, "object.linger"@));
}

/// The controller's own node is created, under its keys, with the name and
/// description given, as a null audio sink that does not outlive the controller.
pub proof fn lemma_main_node_properties_keys(name: Seq<char>, description: Seq<char>)
    ensures
        dict_lookup(main_node_properties_spec(name, description), "node.name"@) == Some(name),
        dict_lookup(main_node_properties_spec(name, description), "node.description"@) == Some(description),
        dict_lookup(main_node_properties_spec(name, description), "factory.name"@) == Some(
            "support.null-audio-sink"@,
        ),
        dict_lookup(main_node_properties_spec(name, description), "media.class"@) == Some("Audio/Sink"@),
        dict_lookup(main_node_properties_spec(name, description), "object.linger"@) == Some("false"@),
        main_node_properties_spec(name, description).len() == 5,
{
    reveal_strlit("node.name");
    reveal_strlit("node.description");
    reveal_strlit("factory.name");
    reveal_strlit("media.class");
    reveal_strlit("object.linger");
    let e = main_node_properties_spec(name, description);
    let e1 = e.drop_first();
    let e2 = e1.drop_first();
    let e3 = e2.drop_first();
    let e4 = e3.drop_first();
    assert(e1[0] == e[1] && e2[0] == e[2] && e3[0] == e[3] && e4[0] == e[4]);
    assert("node.name"@.len() != "node.description"@.len());
    assert("node.description"@.len() != "factory.name"@.len());
    assert("node.description"@.len() != "media.class"@.len());
    assert("node.description"@.len() != "object.linger"@.len());
    assert(dict_lookup(e, "node.description"@) == dict_lookup(e1, "node.description"@));
    assert(dict_lookup(e2, "factory.name"@) == Some("support.null-audio-sink"@));
    assert(dict_lookup(e1, "factory.name"@) == dict_lookup(e2, "factory.name"@));
    assert(dict_lookup(e, "factory.name"@) == dict_lookup(e1, "factory.name"@));
    assert(dict_lookup(e3, "media.class"@) == Some("Audio/Sink"@));
    assert(dict_lookup(e2, "media.class"@) == dict_lookup(e3, "media.class"@));
    assert(dict_lookup(e1, "media.class"@) == dict_lookup(e2, "media.class"@));
    assert(dict_lookup(e, "media.class"@) == dict_lookup(e1, "media.class"@));
    assert(dict_lookup(e4, "object.linger"@) == Some("false"@));
    assert(dict_lookup(e3, "object.linger"@) == dict_lookup(e4, "object.linger"@));
    assert(dict_lookup(e2, "object.linger"@) == dict_lookup(e3, "object.linger"@));
    assert(dict_lookup(e1, "object.linger"@) == dict_lookup(e2, "object.linger"@));
    assert(dict_lookup(e, "object.linger"@) == dict_lookup(e1, "object.linger"@));
}

/// Only recorded ports can be linked, only from an output port to an input
/// port, and never a port to itself.
pub proof fn lemma_can_link(s: PwGraphStateView, port_from: u32, port_to: u32)
    ensures
        can_link(s, port_from, port_to) ==> {
            &&& s.items.contains_key(port_from) && s.items[port_from] is Port
            &&& s.items.contains_key(port_to) && s.items[port_to] is Port
            &&& port_direction(s, port_from) == Direction::Output
            &&& port_direction(s, port_to) == Direction::Input
            &&& port_from != port_to
        },
        (s.items.get(port_from) matches Some(PwGraphItem::Port { direction: Direction::Output, .. })
            && s.items.get(port_to) matches Some(PwGraphItem::Port { direction: Direction::Input, .. }))
            ==> can_link(s, port_from, port_to),
{
}

/// A property entry made of two strings.
fn entry(key: &str, value: String) -> (e: (String, String))
    ensures
        e.0@ == key@,
        e.1@ == value@,
{
    (String::from_str(key), value)
}

/// Whether a link can be made from `port_from` to `port_to`.
pub fn can_connect_ports(state: &PwGraphState, port_from: u32, port_to: u32) -> (r: bool)
    ensures
        r == can_link(state@, port_from, port_to),
{
    let from_ok = match state.get(port_from) {
        Some(PwGraphItem::Port { direction, .. }) => *direction == Direction::Output,
        _ => false,
    };
    let to_ok = match state.get(port_to) {
        Some(PwGraphItem::Port { direction, .. }) => *direction == Direction::Input,
        _ => false,
    };
    from_ok && to_ok
}

/// The properties with which to ask PipeWire for a link from the output port
/// `port_from_id` to the input port `port_to_id`.
pub fn connect_ports(state: &PwGraphState, port_from_id: u32, port_to_id: u32) -> (props: Dict)
    requires
        can_link(state@, port_from_id, port_to_id),
    ensures
        props@ == link_properties(
            port_node(state@, port_from_id),
            port_from_id,
            port_node(state@, port_to_id),
            port_to_id,
        ),
{
    let node_from_id = match state.get(port_from_id) {
        Some(PwGraphItem::Port { node_id, .. }) => *node_id,
        _ => 0,
    };
    let node_to_id = match state.get(port_to_id) {
        Some(PwGraphItem::Port { node_id, .. }) => *node_id,
        _ => 0,
    };
    let mut entries: Vec<(String, String)> = Vec::new();
    entries.push(entry("link.output.node", u32_to_string(node_to_id)));
    entries.push(entry("link.output.port", u32_to_string(port_to_id)));
    entries.push(entry("link.input.node", u32_to_string(node_from_id)));
    entries.push(entry("link.input.port", u32_to_string(port_from_id)));
    entries.push(entry("object.linger", String::from_str("1")));
    let props = Dict { entries };
    assert(props@ =~= link_properties(node_from_id, port_from_id, node_to_id, port_to_id));
    props
}

/// The properties with which to create the controller's own pass-through
/// node: a null audio sink named `name`, described to the user as `description`.
pub fn main_node_properties(name: &str, description: &str) -> (props: Dict)
    ensures
        props@ == main_node_properties_spec(name@, description@),
{
    let mut entries: Vec<(String, String)> = Vec::new();
    entries.push(entry("node.name", String::from_str(name)));
    entries.push(entry("node.description", String::from_str(description)));
    entries.push(entry("factory.name", String::from_str("support.null-audio-sink")));
    entries.push(entry("media.class", String::from_str("Audio/Sink")));
    entries.push(entry("object.linger", String::from_str("false")));
    let props = Dict { entries };
    assert(props@ =~= main_node_properties_spec(name@, description@));
    props
}

} // verus!
