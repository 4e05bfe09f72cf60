use pwacc::constants::Direction;
use pwacc::controller::{AutoConnect, PortAction};
use pwacc::dict::Dict;
use pwacc::handlers::PortPropsError;
use pwacc::matching::patterns_to_regexes;
use pwacc::object::{GlobalObject, ObjectType};
use pwacc::shared::PwGraphItem;

fn dict(pairs: &[(&str, &str)]) -> Dict {
    Dict { entries: pairs.iter().map(|(k, v)| (k.to_string(), v.to_string())).collect() }
}

fn node(id: u32, app: &str) -> GlobalObject {
    GlobalObject { id, type_: ObjectType::Node, props: Some(dict(&[("application.name", app)])) }
}

fn port(id: u32, node_id: &str, dir: &str, ch: Option<&str>) -> GlobalObject {
    let mut pairs = vec![("node.id", node_id), ("port.direction", dir)];
    if let Some(c) = ch {
        pairs.push(("audio.channel", c));
    }
    GlobalObject { id, type_: ObjectType::Port, props: Some(dict(&pairs)) }
}

fn inputs(patterns: &[&str]) -> AutoConnect {
    let ps = patterns_to_regexes(&patterns.iter().map(|s| s.to_string()).collect());
    AutoConnect::new(ps, Vec::new(), false)
}

#[test]
fn central_node_is_set_once() {
    let mut c = inputs(&[]);
    assert_eq!(c.central_node(), None);
    c.central_node_info(10);
    assert_eq!(c.central_node(), Some(10));
    c.central_node_info(11);
    assert_eq!(c.central_node(), Some(10));
}

#[test]
fn nodes_selected_by_patterns() {
    let mut c = inputs(&["^spotify$"]);
    assert_eq!(c.node_added(&node(20, "spotify")), (true, false));
    assert_eq!(c.node_added(&node(21, "mpv")), (false, false));
    assert!(c.is_input_node(20));
    assert!(!c.is_input_node(21));
    assert!(!c.is_output_node(20));
    assert_eq!(c.graph().get(21), Some(&PwGraphItem::Node));
}

#[test]
fn output_patterns_select_output_nodes() {
    let ps = patterns_to_regexes(&vec!["sink".to_string()]);
    let mut c = AutoConnect::new(Vec::new(), ps, false);
    assert_eq!(c.node_added(&node(22, "my sink")), (false, true));
    assert!(c.is_output_node(22));
}

#[test]
fn ports_wait_for_central_node() {
    let mut c = inputs(&["app"]);
    c.node_added(&node(20, "app"));
    assert_eq!(c.port_added(&port(50, "20", "out", Some("FL"))), Ok(PortAction::CentralNodeUnknown));
    assert!(c.graph().get(50).is_some());
}

#[test]
fn own_ports_are_filed_and_app_ports_linked() {
    let mut c = inputs(&["app"]);
    c.central_node_info(10);
    c.node_added(&node(20, "app"));
    c.node_added(&node(21, "other"));
    // An app port before the central port for its channel is known.
    assert_eq!(c.port_added(&port(49, "20", "out", Some("FR"))), Ok(PortAction::NoCentralPort));
    // The central node's own input ports.
    assert_eq!(c.port_added(&port(30, "10", "in", Some("FL"))), Ok(PortAction::OwnPort));
    assert_eq!(c.port_added(&port(31, "10", "in", Some("FR"))), Ok(PortAction::OwnPort));
    // Output ports of the selected node go to our input of the same channel.
    assert_eq!(c.port_added(&port(50, "20", "out", Some("FL"))), Ok(PortAction::Connect { from: 50, to: 30 }));
    assert_eq!(c.port_added(&port(51, "20", "out", Some("FR"))), Ok(PortAction::Connect { from: 51, to: 31 }));
    // Input ports of the selected node and ports of other nodes are left alone.
    assert_eq!(c.port_added(&port(52, "20", "in", Some("FL"))), Ok(PortAction::Ignore));
    assert_eq!(c.port_added(&port(53, "21", "out", Some("FL"))), Ok(PortAction::Ignore));
    // A port without channel.
    assert_eq!(c.port_added(&port(54, "20", "out", None)), Ok(PortAction::NoAudioChannel));
    // A port whose properties cannot be read.
    assert_eq!(c.port_added(&port(55, "oops", "out", Some("FL"))), Err(PortPropsError::InvalidNodeId));
    assert!(c.graph().get(55).is_none());
}

#[test]
fn output_nodes_are_fed_from_our_outputs() {
    let ps = patterns_to_regexes(&vec!["speaker".to_string()]);
    let mut c = AutoConnect::new(Vec::new(), ps, false);
    c.central_node_info(10);
    c.node_added(&node(25, "speaker"));
    assert_eq!(c.port_added(&port(35, "10", "out", Some("FL"))), Ok(PortAction::OwnPort));
    assert_eq!(c.port_added(&port(60, "25", "in", Some("FL"))), Ok(PortAction::Connect { from: 35, to: 60 }));
    assert_eq!(c.port_added(&port(61, "25", "out", Some("FL"))), Ok(PortAction::Ignore));
}

#[test]
fn removed_nodes_are_forgotten() {
    let mut c = inputs(&["app"]);
    c.central_node_info(10);
    c.node_added(&node(20, "app"));
    assert_eq!(c.global_removed(20), (true, false));
    assert!(!c.is_input_node(20));
    assert!(c.graph().get(20).is_none());
    assert_eq!(c.global_removed(20), (false, false));
    c.port_added(&port(30, "10", "in", Some("FL"))).unwrap();
    assert_eq!(c.port_added(&port(50, "20", "out", Some("FL"))), Ok(PortAction::Ignore));
}

#[test]
fn port_and_link_info_update_graph() {
    let mut c = inputs(&[]);
    assert_eq!(c.port_info(70, &dict(&[("node.id", "5")]), Direction::Output), Ok(()));
    assert_eq!(c.graph().get(70), Some(&PwGraphItem::Port { node_id: 5, direction: Direction::Output }));
    c.link_info(90, 70, 71);
    assert_eq!(c.graph().get(90), Some(&PwGraphItem::Link { port_from: 70, port_to: 71 }));
}
