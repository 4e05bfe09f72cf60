use vstd::prelude::*;
use std::collections::{HashMap, HashSet};
use crate::actions::{port_direction, port_node, recorded_port};
use crate::constants::{direction_raw, Direction, SPA_DIRECTION_INPUT, SPA_DIRECTION_OUTPUT};
use crate::dict::Dict;
use crate::handlers::{
    handle_link_info, handle_node_added, handle_port_added, handle_port_info, port_of_props,
    state_with_channel, is_recorded_port, node_id_of_props, PortPropsError,
};
use crate::matching::{node_matches, pattern_texts, pw_node_matches_regexes, Pattern};
use crate::object::GlobalObject;
use crate::shared::{
    lemma_pair_map_insert, make_pair_key, pair_key, pair_map, state_after_add, state_after_del,
    PwGraphItem, PwGraphState, PwGraphStateView,
};

verus! {

broadcast use vstd::std_specs::hash::group_hash_axioms;

/// What the controller is to do about a newly announced port.
#[derive(Clone, Copy, Debug, PartialEq, Eq, Structural)]
pub enum PortAction {
    /// The controller's own node is not known yet: nothing to link to.
    CentralNodeUnknown,
    /// No audio channel is known for the port.
    NoAudioChannel,
    /// The port is one of the controller's own; it is now on file for its direction and channel.
    OwnPort,
    /// The port belongs to a node that is not to be linked.
    Ignore,
    /// Link the output port `from` to the input port `to`.
    Connect { from: u32, to: u32 },
    /// The port is to be linked, but the controller's node has no port of the
    /// opposite direction on the same channel.
    NoCentralPort,
}

/// The abstract state of the controller.
pub struct AutoConnectView {
    /// What is known of the PipeWire graph.
    pub graph: PwGraphStateView,
    /// The id of the controller's own pass-through node, once PipeWire told it.
    pub central_node: Option<u32>,
    /// The ports of the controller's node, by raw direction and audio channel.
    pub central_ports: Map<(u32, u32), u32>,
    /// The nodes whose output ports are to be linked to the controller's inputs.
    pub input_nodes: Set<u32>,
    /// The nodes whose input ports are to be linked from the controller's outputs.
    pub output_nodes: Set<u32>,
    /// The patterns that select the nodes of `input_nodes`.
    pub input_patterns: Seq<Seq<char>>,
    /// The patterns that select the nodes of `output_nodes`.
    pub output_patterns: Seq<Seq<char>>,
    /// Whether node descriptions are matched as well as application names.
    pub match_description: bool,
}

/// The controller: it keeps the graph up to date from registry events and
/// decides which ports to link to its own pass-through node.
pub struct AutoConnect {
    graph: PwGraphState,
    central_node: Option<u32>,
    central_ports: HashMap<u64, u32>,
    input_nodes: HashSet<u32>,
    output_nodes: HashSet<u32>,
    input_patterns: Vec<Pattern>,
    output_patterns: Vec<Pattern>,
    match_description: bool,
}

impl View for AutoConnect {
    type V = AutoConnectView;

    closed spec fn view(&self) -> AutoConnectView {
        AutoConnectView {
            graph: self.graph@,
            central_node: self.central_node,
            central_ports: pair_map(self.central_ports@),
            input_nodes: self.input_nodes@,
            output_nodes: self.output_nodes@,
            input_patterns: pattern_texts(self.input_patterns@),
            output_patterns: pattern_texts(self.output_patterns@),
            match_description: self.match_description,
        }
    }
}

/// The decision about the port `id`, already recorded in `s.graph`, and the
/// state after it: nothing happens before the controller's node is known or
/// where the port has no audio channel; a port of the controller's node is
/// filed under its direction and channel; an output port of a node of
/// `input_nodes` is linked to the controller's input port on the same channel,
/// and an input port of a node of `output_nodes` is linked from the
/// controller's output port on the same channel.
pub open spec fn port_outcome(s: AutoConnectView, id: u32) -> (AutoConnectView, PortAction) {
    match s.central_node {
        None => (s, PortAction::CentralNodeUnknown),
        Some(central) => match s.graph.port_audio_channels.get(id) {
            None => (s, PortAction::NoAudioChannel),
            Some(ch) => {
                let (node_id, direction) = recorded_port(s.graph, id)->0;
                if node_id == central {
                    (
                        AutoConnectView {
                            central_ports: s.central_ports.insert((direction_raw(direction), ch), id),
                            ..s
                        },
                        PortAction::OwnPort,
                    )
                } else if direction == Direction::Output && s.input_nodes.contains(node_id) {
                    match s.central_ports.get((direction_raw(Direction::Input), ch)) {
                        Some(ours) => (s, PortAction::Connect { from: id, to: ours }),
                        None => (s, PortAction::NoCentralPort),
                    }
                } else if direction == Direction::Input && s.output_nodes.contains(node_id) {
                    match s.central_ports.get((direction_raw(Direction::Output), ch)) {
                        Some(ours) => (s, PortAction::Connect { from: ours, to: id }),
                        None => (s, PortAction::NoCentralPort),
                    }
                } else {
                    (s, PortAction::Ignore)
                }
            },
        },
    }
}

/// The id of the controller's node after PipeWire told `id`, where it knew `central` before.
pub open spec fn central_after_info(central: Option<u32>, id: u32) -> Option<u32> {
    match central {
        Some(c) => Some(c),
        None => Some(id),
    }
}

/// The id of the controller's node is set once: the first id told is kept
/// whatever is told after it.
pub proof fn lemma_central_node_set_once(central: Option<u32>, first: u32, later: u32)
    ensures
        central is None ==> central_after_info(central, first) == Some(first),
        central_after_info(central_after_info(central, first), later) == central_after_info(central, first),
{
}

/// The channel on file for port `id`, or 0.
pub open spec fn port_channel(s: AutoConnectView, id: u32) -> u32 {
    s.graph.port_audio_channels[id]
}

/// What the decision about a recorded port keeps: the graph, the node
/// selections and the patterns never change, and only a port of the
/// controller's own node is filed, under its direction and channel.
pub proof fn lemma_port_outcome_frame(s: AutoConnectView, id: u32)
    requires
        recorded_port(s.graph, id) is Some,
    ensures
        ({
            let (t, action) = port_outcome(s, id);
            &&& t.graph == s.graph
            &&& t.central_node == s.central_node
            &&& t.input_nodes == s.input_nodes
            &&& t.output_nodes == s.output_nodes
            &&& t.input_patterns == s.input_patterns
            &&& t.output_patterns == s.output_patterns
            &&& t.match_description == s.match_description
            &&& action != PortAction::OwnPort ==> t.central_ports == s.central_ports
            &&& action == PortAction::OwnPort ==> t.central_ports == s.central_ports.insert(
                (direction_raw(port_direction(s.graph, id)), port_channel(s, id)),
                id,
            )
        }),
{
}

/// A port of the controller's own node is never linked: it is filed. Once the
/// controller's node is known, a port with a channel is filed exactly when it
/// belongs to that node.
pub proof fn lemma_own_ports_filed(s: AutoConnectView, id: u32)
    requires
        recorded_port(s.graph, id) is Some,
        s.central_node is Some,
        s.graph.port_audio_channels.contains_key(id),
    ensures
        (port_outcome(s, id).1 == PortAction::OwnPort) == (port_node(s.graph, id) == s.central_node->0),
{
}

/// A link is only ever made between a port of a selected node and the port
/// of the controller's node that is on file for the opposite direction and
/// the same audio channel: an output port of a node selected by the input
/// patterns goes to the controller's input port, and the controller's output
/// port goes to an input port of a node selected by the output patterns.
pub proof fn lemma_connect_pairs_channels(s: AutoConnectView, id: u32, from: u32, to: u32)
    requires
        recorded_port(s.graph, id) is Some,
        port_outcome(s, id).1 == (PortAction::Connect { from, to }),
    ensures
        s.central_node is Some,
        s.graph.port_audio_channels.contains_key(id),
        port_node(s.graph, id) != s.central_node->0,
        ({
            let (node_id, direction) = recorded_port(s.graph, id)->0;
            let ch = port_channel(s, id);
            ||| from == id && direction == Direction::Output && s.input_nodes.contains(node_id)
                && s.central_ports.get((direction_raw(Direction::Input), ch)) == Some(to)
            ||| to == id && direction == Direction::Input && s.output_nodes.contains(node_id)
                && s.central_ports.get((direction_raw(Direction::Output), ch)) == Some(from)
        }),
{
}

/// The decision about a recorded port `id` of node `node` with direction
/// `dir`, case by case, in terms of the state alone:
/// - before the controller's node is known nothing is done;
/// - a port without audio channel is left alone;
/// - a port of the controller's node `c` is filed under its raw direction and its channel;
/// - an output port with channel `ch` of a node selected by the input patterns
///   is linked to the controller's port filed under (input, `ch`), whatever `ch` is;
/// - an input port with channel `ch` of a node selected by the output patterns
///   is linked from the controller's port filed under (output, `ch`), whatever `ch` is;
/// - where the controller has no such port the decision says so;
/// - every other port is ignored.
pub proof fn lemma_port_decision(s: AutoConnectView, id: u32, node: u32, dir: Direction, c: u32, ch: u32, p: u32)
    requires
        recorded_port(s.graph, id) == Some((node, dir)),
    ensures
        s.central_node is None ==> port_outcome(s, id).1 == PortAction::CentralNodeUnknown,
        s.central_node == Some(c) && s.graph.port_audio_channels.get(id) is None
            ==> port_outcome(s, id).1 == PortAction::NoAudioChannel,
        s.central_node == Some(c) && s.graph.port_audio_channels.get(id) == Some(ch) && node == c ==> {
            &&& port_outcome(s, id).1 == PortAction::OwnPort
            &&& dir == Direction::Input ==> port_outcome(s, id).0.central_ports
                == s.central_ports.insert((SPA_DIRECTION_INPUT, ch), id)
            &&& dir == Direction::Output ==> port_outcome(s, id).0.central_ports
                == s.central_ports.insert((SPA_DIRECTION_OUTPUT, ch), id)
        },
        s.central_node == Some(c) && s.graph.port_audio_channels.get(id) == Some(ch) && node != c
            && dir == Direction::Output && s.input_nodes.contains(node) ==> {
            &&& s.central_ports.get((SPA_DIRECTION_INPUT, ch)) == Some(p)
                ==> port_outcome(s, id).1 == (PortAction::Connect { from: id, to: p })
            &&& s.central_ports.get((SPA_DIRECTION_INPUT, ch)) is None
                ==> port_outcome(s, id).1 == PortAction::NoCentralPort
        },
        s.central_node == Some(c) && s.graph.port_audio_channels.get(id) == Some(ch) && node != c
            && dir == Direction::Input && s.output_nodes.contains(node) ==> {
            &&& s.central_ports.get((SPA_DIRECTION_OUTPUT, ch)) == Some(p)
                ==> port_outcome(s, id).1 == (PortAction::Connect { from: p, to: id })
            &&& s.central_ports.get((SPA_DIRECTION_OUTPUT, ch)) is None
                ==> port_outcome(s, id).1 == PortAction::NoCentralPort
        },
        s.central_node == Some(c) && s.graph.port_audio_channels.get(id) == Some(ch) && node != c
            && !(dir == Direction::Output && s.input_nodes.contains(node))
            && !(dir == Direction::Input && s.output_nodes.contains(node))
            ==> port_outcome(s, id).1 == PortAction::Ignore,
{
}

/// A removed object is forgotten and no longer selected for linking.
pub proof fn lemma_removed_forgotten(s: AutoConnectView, id: u32)
    ensures
        !state_after_del(s.graph, id).items.contains_key(id),
        !s.input_nodes.remove(id).contains(id),
        !s.output_nodes.remove(id).contains(id),
{
}

impl AutoConnect {
    /// A controller that knows no graph yet, and selects nodes with the given patterns.
    pub fn new(input_patterns: Vec<Pattern>, output_patterns: Vec<Pattern>, match_description: bool) -> (c: Self)
        ensures
            c@.graph.items == Map::<u32, PwGraphItem>::empty(),
            c@.graph.links == Map::<(u32, u32), u32>::empty(),
            c@.graph.port_audio_channels == Map::<u32, u32>::empty(),
            c@.central_node is None,
            c@.central_ports == Map::<(u32, u32), u32>::empty(),
            c@.input_nodes == Set::<u32>::empty(),
            c@.output_nodes == Set::<u32>::empty(),
            c@.input_patterns == pattern_texts(input_patterns@),
            c@.output_patterns == pattern_texts(output_patterns@),
            c@.match_description == match_description,
    {
        let c = AutoConnect {
            graph: PwGraphState::new(),
            central_node: None,
            central_ports: HashMap::new(),
            input_nodes: HashSet::new(),
            output_nodes: HashSet::new(),
            input_patterns,
            output_patterns,
            match_description,
        };
        assert(pair_map(c.central_ports@) =~= Map::<(u32, u32), u32>::empty());
        c
    }

    /// What is known of the graph.
    pub fn graph(&self) -> (g: &PwGraphState)
        ensures
            g@ == self@.graph,
    {
        &self.graph
    }

    /// The id of the controller's own node, once known.
    pub fn central_node(&self) -> (r: Option<u32>)
        ensures
            r == self@.central_node,
    {
        self.central_node
    }

    /// Whether the output ports of node `id` are to be linked to the controller.
    pub fn is_input_node(&self, id: u32) -> (r: bool)
        ensures
            r == self@.input_nodes.contains(id),
    {
        self.input_nodes.contains(&id)
    }

    /// Whether the input ports of node `id` are to be linked from the controller.
    pub fn is_output_node(&self, id: u32) -> (r: bool)
        ensures
            r == self@.output_nodes.contains(id),
    {
        self.output_nodes.contains(&id)
    }

    /// PipeWire told the id of the controller's own node. Only the first id
    /// told is kept.
    pub fn central_node_info(&mut self, id: u32)
        ensures
            final(self)@ == (AutoConnectView {
                central_node: central_after_info(old(self)@.central_node, id),
                ..old(self)@
            }),
    {
        if self.central_node.is_none() {
            self.central_node = Some(id);
        }
    }

    /// The object `id` left the graph: it is forgotten, and no longer selected
    /// for linking. Returns whether it had been selected as an input node and
    /// as an output node.
    pub fn global_removed(&mut self, id: u32) -> (r: (bool, bool))
        ensures
            r.0 == old(self)@.input_nodes.contains(id),
            r.1 == old(self)@.output_nodes.contains(id),
            final(self)@ == (AutoConnectView {
                graph: state_after_del(old(self)@.graph, id),
                input_nodes: old(self)@.input_nodes.remove(id),
                output_nodes: old(self)@.output_nodes.remove(id),
                ..old(self)@
            }),
    {
        self.graph.del(id);
        let was_input = self.input_nodes.remove(&id);
        let was_output = self.output_nodes.remove(&id);
        (was_input, was_output)
    }

    /// A node (which must carry properties) joined the graph: it is recorded,
    /// and selected for linking where the patterns match it. Returns whether it
    /// was selected by the input patterns and by the output patterns.
    pub fn node_added(&mut self, node: &GlobalObject) -> (r: (bool, bool))
        requires
            node.props is Some,
        ensures
            r.0 == node_matches(node@.props->0, old(self)@.input_patterns, old(self)@.match_description),
            r.1 == node_matches(node@.props->0, old(self)@.output_patterns, old(self)@.match_description),
            final(self)@ == (AutoConnectView {
                graph: state_after_add(old(self)@.graph, node.id, PwGraphItem::Node),
                input_nodes: if r.0 { old(self)@.input_nodes.insert(node.id) } else { old(self)@.input_nodes },
                output_nodes: if r.1 { old(self)@.output_nodes.insert(node.id) } else { old(self)@.output_nodes },
                ..old(self)@
            }),
    {
        handle_node_added(&mut self.graph, node);
        let is_input = pw_node_matches_regexes(node, &self.input_patterns, self.match_description);
        if is_input {
            self.input_nodes.insert(node.id);
        }
        let is_output = pw_node_matches_regexes(node, &self.output_patterns, self.match_description);
        if is_output {
            self.output_nodes.insert(node.id);
        }
        (is_input, is_output)
    }

    /// A port joined the graph: it is recorded from its properties, then the
    /// controller decides what to do about it (see `port_outcome`). Where its
    /// properties cannot be read nothing changes.
    pub fn port_added(&mut self, port: &GlobalObject) -> (r: Result<PortAction, PortPropsError>)
        ensures
            match port_of_props(port@.props) {
                Err(e) => r == Err::<PortAction, PortPropsError>(e) && final(self)@ == old(self)@,
                Ok((node_id, direction)) => {
                    let recorded = AutoConnectView {
                        graph: state_with_channel(
                            state_after_add(old(self)@.graph, port.id, PwGraphItem::Port { node_id, direction }),
                            port.id,
                            port@.props->0,
                        ),
                        ..old(self)@
                    };
                    r == Ok::<PortAction, PortPropsError>(port_outcome(recorded, port.id).1)
                        && final(self)@ == port_outcome(recorded, port.id).0
                },
            },
    {
        match handle_port_added(&mut self.graph, port) {
            Err(e) => {
                return Err(e);
            },
            Ok(()) => {},
        }
        let id = port.id;
        let central = match self.central_node {
            None => {
                return Ok(PortAction::CentralNodeUnknown);
            },
            Some(c) => c,
        };
        let ch = match self.graph.get_port_audio_channel(id) {
            None => {
                return Ok(PortAction::NoAudioChannel);
            },
            Some(ch) => *ch,
        };
        let (node_id, direction) = match self.graph.get(id) {
            Some(PwGraphItem::Port { node_id, direction }) => (*node_id, *direction),
            _ => {
                assert(false);
                return Ok(PortAction::Ignore);
            },
        };
        if node_id == central {
            let raw = direction.as_raw();
            proof {
                lemma_pair_map_insert(self.central_ports@, raw, ch, id);
            }
            self.central_ports.insert(make_pair_key(raw, ch), id);
            return Ok(PortAction::OwnPort);
        }
        match direction {
            Direction::Output => {
                if self.input_nodes.contains(&node_id) {
                    match self.central_ports.get(&make_pair_key(direction.reverse().as_raw(), ch)) {
                        Some(ours) => Ok(PortAction::Connect { from: id, to: *ours }),
                        None => Ok(PortAction::NoCentralPort),
                    }
                } else {
                    Ok(PortAction::Ignore)
                }
            },
            Direction::Input => {
                if self.output_nodes.contains(&node_id) {
                    match self.central_ports.get(&make_pair_key(direction.reverse().as_raw(), ch)) {
                        Some(ours) => Ok(PortAction::Connect { from: *ours, to: id }),
                        None => Ok(PortAction::NoCentralPort),
                    }
                } else {
                    Ok(PortAction::Ignore)
                }
            },
            Direction::Other(_) => Ok(PortAction::Ignore),
        }
    }

    /// PipeWire sent the info of port `id`, whose proxy the caller holds:
    /// the graph is brought up to date (see `handle_port_info`).
    pub fn port_info(&mut self, id: u32, props: &Dict, direction: Direction) -> (r: Result<(), PortPropsError>)
        ensures
            is_recorded_port(old(self)@.graph, id) ==> r is Ok && final(self)@ == (AutoConnectView {
                graph: state_with_channel(old(self)@.graph, id, props@),
                ..old(self)@
            }),
            !is_recorded_port(old(self)@.graph, id) ==> match node_id_of_props(props@) {
                Err(e) => r == Err::<(), PortPropsError>(e) && final(self)@ == old(self)@,
                Ok(node_id) => r is Ok && final(self)@ == (AutoConnectView {
                    graph: state_with_channel(
                        state_after_add(old(self)@.graph, id, PwGraphItem::Port { node_id, direction }),
                        id,
                        props@,
                    ),
                    ..old(self)@
                }),
            },
    {
        handle_port_info(&mut self.graph, id, props, direction)
    }

    /// PipeWire sent the info of link `id`, from port `port_from` to port `port_to`: it is recorded.
    pub fn link_info(&mut self, id: u32, port_from: u32, port_to: u32)
        ensures
            final(self)@ == (AutoConnectView {
                graph: state_after_add(old(self)@.graph, id, PwGraphItem::Link { port_from, port_to }),
                ..old(self)@
            }),
    {
        handle_link_info(&mut self.graph, id, port_from, port_to);
    }
}

} // verus!
