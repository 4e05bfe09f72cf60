use vstd::prelude::*;
use crate::constants::{
    channel_name_to_spa_audio_channel, channel_of_name, direction_name_to_spa_direction,
    direction_of_name, Direction,
};
use crate::dict::{dict_lookup, Dict, DictView};
use crate::object::GlobalObject;
use crate::shared::{state_after_add, PwGraphItem, PwGraphState, PwGraphStateView};
use crate::text::{decimal_u32, parse_u32};

verus! {

/// Why the properties of a port could not be read.
#[derive(Clone, Copy, Debug, PartialEq, Eq, Structural)]
pub enum PortPropsError {
    /// The port came without properties.
    MissingProps,
    /// There is no `node.id` property.
    MissingNodeId,
    /// The `node.id` property is not a decimal `u32`.
    InvalidNodeId,
    /// There is no `port.direction` property.
    MissingDirection,
    /// The `port.direction` property is neither `in` nor `out`.
    UnknownDirection,
}

/// The node id that the `node.id` property of `props` gives.
pub open spec fn node_id_of_props(props: DictView) -> Result<u32, PortPropsError> {
    match dict_lookup(props, "node.id"@) {
        None => Err(PortPropsError::MissingNodeId),
        Some(text) => match decimal_u32(text) {
            None => Err(PortPropsError::InvalidNodeId),
            Some(n) => Ok(n),
        },
    }
}

/// The audio channel that the `audio.channel` property of `props` names, if it is there.
pub open spec fn channel_of_props(props: DictView) -> Option<u32> {
    match dict_lookup(props, "audio.channel"@) {
        None => None,
        Some(name) => Some(channel_of_name(name)),
    }
}

/// What the properties of a newly announced port say of it: the node it belongs
/// to and its direction, or why they cannot be read.
pub open spec fn port_of_props(props: Option<DictView>) -> Result<(u32, Direction), PortPropsError> {
    match props {
        None => Err(PortPropsError::MissingProps),
        Some(p) => match node_id_of_props(p) {
            Err(e) => Err(e),
            Ok(node_id) => match dict_lookup(p, "port.direction"@) {
                None => Err(PortPropsError::MissingDirection),
                Some(name) => match direction_of_name(name) {
                    None => Err(PortPropsError::UnknownDirection),
                    Some(d) => Ok((node_id, d)),
                },
            },
        },
    }
}

/// The state after noting the audio channel that `props` names for port `id`, if it names one.
pub open spec fn state_with_channel(s: PwGraphStateView, id: u32, props: DictView) -> PwGraphStateView {
    match channel_of_props(props) {
        None => s,
        Some(ch) => PwGraphStateView {
            port_audio_channels: s.port_audio_channels.insert(id, ch),
            ..s
        },
    }
}

/// A port's properties are read successfully exactly when they are there,
/// their first `node.id` spells a `u32` in decimal, and their first
/// `port.direction` is `in` or `out`; the port then belongs to that node and
/// has that direction.
pub proof fn lemma_port_props_read(props: DictView, node: u32, dir: Direction, text: Seq<char>, name: Seq<char>)
    requires
        dict_lookup(props, "node.id"@) == Some(text),
        dict_lookup(props, "port.direction"@) == Some(name),
    ensures
        port_of_props(None) == Err::<(u32, Direction), PortPropsError>(PortPropsError::MissingProps),
        port_of_props(Some(props)) == Ok::<(u32, Direction), PortPropsError>((node, dir)) <==> (
            decimal_u32(text) == Some(node) && ((name == "in"@ && dir == Direction::Input) || (name == "out"@
                && dir == Direction::Output))),
{
    crate::constants::lemma_direction_names(name);
}

/// Why a port's properties cannot be read, checked in this order: no
/// properties; no `node.id`; a `node.id` that is not a decimal `u32`; no
/// `port.direction`; a `port.direction` other than `in` and `out`.
pub proof fn lemma_port_props_errors(props: DictView, text: Seq<char>, name: Seq<char>)
    ensures
        dict_lookup(props, "node.id"@) is None ==> port_of_props(Some(props)) == Err::<(u32, Direction), PortPropsError>(
            PortPropsError::MissingNodeId,
        ),
        dict_lookup(props, "node.id"@) == Some(text) && decimal_u32(text) is None ==> port_of_props(Some(props))
            == Err::<(u32, Direction), PortPropsError>(PortPropsError::InvalidNodeId),
        dict_lookup(props, "node.id"@) == Some(text) && decimal_u32(text) is Some && dict_lookup(
            props,
            "port.direction"@,
        ) is None ==> port_of_props(Some(props)) == Err::<(u32, Direction), PortPropsError>(
            PortPropsError::MissingDirection,
        ),
        dict_lookup(props, "node.id"@) == Some(text) && decimal_u32(text) is Some && dict_lookup(
            props,
            "port.direction"@,
        ) == Some(name) && name != "in"@ && name != "out"@ ==> port_of_props(Some(props)) == Err::<
            (u32, Direction),
            PortPropsError,
        >(PortPropsError::UnknownDirection),
{
    crate::constants::lemma_direction_names(name);
}

/// Reading a port's audio channel changes nothing but that port's channel: a
/// present `audio.channel` sets it to the channel it names, a missing one
/// leaves it as it was.
pub proof fn lemma_channel_noted(s: PwGraphStateView, id: u32, props: DictView, name: Seq<char>, other: u32)
    ensures
        state_with_channel(s, id, props).items == s.items,
        state_with_channel(s, id, props).links == s.links,
        other != id ==> state_with_channel(s, id, props).port_audio_channels.get(other)
            == s.port_audio_channels.get(other),
        dict_lookup(props, "audio.channel"@) == Some(name) ==> state_with_channel(s, id, props).port_audio_channels.get(id)
            == Some(channel_of_name(name)),
        dict_lookup(props, "audio.channel"@) is None ==> state_with_channel(s, id, props) == s,
{
}

/// Reads the `node.id` property of `props`.
fn node_id_from_props(props: &Dict) -> (r: Result<u32, PortPropsError>)
    ensures
        r == node_id_of_props(props@),
{
    match props.get("node.id") {
        None => Err(PortPropsError::MissingNodeId),
        Some(text) => match parse_u32(text.as_str()) {
            None => Err(PortPropsError::InvalidNodeId),
            Some(n) => Ok(n),
        },
    }
}

/// Notes the audio channel that `props` names for port `id`, if it names one.
fn note_port_channel(state: &mut PwGraphState, id: u32, props: &Dict)
    ensures
        final(state)@ == state_with_channel(old(state)@, id, props@),
{
    if let Some(name) = props.get("audio.channel") {
        let ch = channel_name_to_spa_audio_channel(name.as_str());
        state.set_port_audio_channel(id, ch);
    }
}

/// Records a newly announced node.
pub fn handle_node_added(state: &mut PwGraphState, node: &GlobalObject)
    ensures
        final(state)@ == state_after_add(old(state)@, node.id, PwGraphItem::Node),
{
    state.add(node.id, PwGraphItem::Node);
}

/// Records a newly announced port from the properties it came with: the
/// node it belongs to, its direction and, where named, its audio channel.
/// Where the properties cannot be read the state is left as it was.
pub fn handle_port_added(state: &mut PwGraphState, port: &GlobalObject) -> (r: Result<(), PortPropsError>)
    ensures
        match port_of_props(port@.props) {
            Err(e) => r == Err::<(), PortPropsError>(e) && final(state)@ == old(state)@,
            Ok((node_id, direction)) => r is Ok && final(state)@ == state_with_channel(
                state_after_add(old(state)@, port.id, PwGraphItem::Port { node_id, direction }),
                port.id,
                port@.props->0,
            ),
        },
{
    let props = match &port.props {
        None => {
            return Err(PortPropsError::MissingProps);
        },
        Some(p) => p,
    };
    let node_id = match node_id_from_props(props) {
        Err(e) => {
            return Err(e);
        },
        Ok(n) => n,
    };
    let direction = match props.get("port.direction") {
        None => {
            return Err(PortPropsError::MissingDirection);
        },
        Some(name) => match direction_name_to_spa_direction(name.as_str()) {
            None => {
                return Err(PortPropsError::UnknownDirection);
            },
            Some(d) => d,
        },
    };
    state.add(port.id, PwGraphItem::Port { node_id, direction });
    note_port_channel(state, port.id, props);
    Ok(())
}

/// Whether `id` is recorded as a port.
pub open spec fn is_recorded_port(s: PwGraphStateView, id: u32) -> bool {
    s.items.contains_key(id) && s.items[id] is Port
}

/// Brings the state up to date with the info of port `id` (whose proxy the
/// caller knows): a port not recorded yet is recorded with the node its
/// `node.id` property names and the direction the info gives; a port already
/// recorded keeps what was recorded. In both cases a named audio channel is
/// noted. Where `node.id` is needed and cannot be read the state is left as it was.
pub fn handle_port_info(state: &mut PwGraphState, id: u32, props: &Dict, direction: Direction) -> (r: Result<(), PortPropsError>)
    ensures
        is_recorded_port(old(state)@, id) ==> r is Ok && final(state)@ == state_with_channel(old(state)@, id, props@),
        !is_recorded_port(old(state)@, id) ==> match node_id_of_props(props@) {
            Err(e) => r == Err::<(), PortPropsError>(e) && final(state)@ == old(state)@,
            Ok(node_id) => r is Ok && final(state)@ == state_with_channel(
                state_after_add(old(state)@, id, PwGraphItem::Port { node_id, direction }),
                id,
                props@,
            ),
        },
{
    let known = match state.get(id) {
        Some(PwGraphItem::Port { .. }) => true,
        _ => false,
    };
    if !known {
        let node_id = match node_id_from_props(props) {
            Err(e) => {
                return Err(e);
            },
            Ok(n) => n,
        };
        state.add(id, PwGraphItem::Port { node_id, direction });
    }
    note_port_channel(state, id, props);
    Ok(())
}

/// Records the link `id`, which joins the output port `port_from` to the input port `port_to`.
pub fn handle_link_info(state: &mut PwGraphState, id: u32, port_from: u32, port_to: u32)
    ensures
        final(state)@ == state_after_add(old(state)@, id, PwGraphItem::Link { port_from, port_to }),
{
    state.add(id, PwGraphItem::Link { port_from, port_to });
}

} // verus!
