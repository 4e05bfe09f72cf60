use pwacc::constants::{Direction, SPA_AUDIO_CHANNEL_FL, SPA_AUDIO_CHANNEL_UNKNOWN};
use pwacc::dict::Dict;
use pwacc::handlers::{
    handle_link_info, handle_node_added, handle_port_added, handle_port_info, PortPropsError,
};
use pwacc::object::{GlobalObject, ObjectType};
use pwacc::shared::{PwGraphItem, PwGraphState};

fn dict(pairs: &[(&str, &str)]) -> Dict {
    Dict { entries: pairs.iter().map(|(k, v)| (k.to_string(), v.to_string())).collect() }
}

fn port(id: u32, pairs: &[(&str, &str)]) -> GlobalObject {
    GlobalObject { id, type_: ObjectType::Port, props: Some(dict(pairs)) }
}

#[test]
fn node_added_is_recorded() {
    let mut s = PwGraphState::new();
    let n = GlobalObject { id: 30, type_: ObjectType::Node, props: None };
    handle_node_added(&mut s, &n);
    assert_eq!(s.get(30), Some(&PwGraphItem::Node));
}

#[test]
fn port_added_from_props() {
    let mut s = PwGraphState::new();
    let p = port(50, &[("node.id", "31"), ("port.direction", "out"), ("audio.channel", "FL")]);
    assert_eq!(handle_port_added(&mut s, &p), Ok(()));
    assert_eq!(s.get(50), Some(&PwGraphItem::Port { node_id: 31, direction: Direction::Output }));
    assert_eq!(s.get_port_audio_channel(50), Some(&SPA_AUDIO_CHANNEL_FL));
}

#[test]
fn port_added_node_id_with_plus_sign() {
    let mut s = PwGraphState::new();
    let p = port(51, &[("node.id", "+4294967295"), ("port.direction", "in")]);
    assert_eq!(handle_port_added(&mut s, &p), Ok(()));
    assert_eq!(s.get(51), Some(&PwGraphItem::Port { node_id: 4294967295, direction: Direction::Input }));
    assert_eq!(s.get_port_audio_channel(51), None);
}

#[test]
fn port_added_unknown_channel_name() {
    let mut s = PwGraphState::new();
    let p = port(52, &[("node.id", "7"), ("port.direction", "in"), ("audio.channel", "AUX0")]);
    assert_eq!(handle_port_added(&mut s, &p), Ok(()));
    assert_eq!(s.get_port_audio_channel(52), Some(&SPA_AUDIO_CHANNEL_UNKNOWN));
}

#[test]
fn port_added_errors_leave_state_alone() {
    let mut s = PwGraphState::new();
    let bare = GlobalObject { id: 60, type_: ObjectType::Port, props: None };
    assert_eq!(handle_port_added(&mut s, &bare), Err(PortPropsError::MissingProps));
    let p = port(61, &[("port.direction", "in")]);
    assert_eq!(handle_port_added(&mut s, &p), Err(PortPropsError::MissingNodeId));
    let p = port(62, &[("node.id", "x12"), ("port.direction", "in")]);
    assert_eq!(handle_port_added(&mut s, &p), Err(PortPropsError::InvalidNodeId));
    let p = port(63, &[("node.id", "4294967296"), ("port.direction", "in")]);
    assert_eq!(handle_port_added(&mut s, &p), Err(PortPropsError::InvalidNodeId));
    let p = port(64, &[("node.id", "-1"), ("port.direction", "in")]);
    assert_eq!(handle_port_added(&mut s, &p), Err(PortPropsError::InvalidNodeId));
    let p = port(65, &[("node.id", "3"), ("audio.channel", "FL")]);
    assert_eq!(handle_port_added(&mut s, &p), Err(PortPropsError::MissingDirection));
    let p = port(66, &[("node.id", "3"), ("port.direction", "control"), ("audio.channel", "FL")]);
    assert_eq!(handle_port_added(&mut s, &p), Err(PortPropsError::UnknownDirection));
    for id in 60..67 {
        assert_eq!(s.get(id), None);
        assert_eq!(s.get_port_audio_channel(id), None);
    }
}

#[test]
fn port_info_records_unknown_port() {
    let mut s = PwGraphState::new();
    let props = dict(&[("node.id", "12"), ("audio.channel", "FL")]);
    assert_eq!(handle_port_info(&mut s, 70, &props, Direction::Input), Ok(()));
    assert_eq!(s.get(70), Some(&PwGraphItem::Port { node_id: 12, direction: Direction::Input }));
    assert_eq!(s.get_port_audio_channel(70), Some(&SPA_AUDIO_CHANNEL_FL));
}

#[test]
fn port_info_keeps_known_port() {
    let mut s = PwGraphState::new();
    s.add(71, PwGraphItem::Port { node_id: 3, direction: Direction::Output });
    let props = dict(&[("audio.channel", "FL")]);
    assert_eq!(handle_port_info(&mut s, 71, &props, Direction::Input), Ok(()));
    assert_eq!(s.get(71), Some(&PwGraphItem::Port { node_id: 3, direction: Direction::Output }));
    assert_eq!(s.get_port_audio_channel(71), Some(&SPA_AUDIO_CHANNEL_FL));
}

#[test]
fn port_info_without_node_id() {
    let mut s = PwGraphState::new();
    s.add(72, PwGraphItem::Node);
    let props = dict(&[("audio.channel", "FL")]);
    assert_eq!(handle_port_info(&mut s, 72, &props, Direction::Input), Err(PortPropsError::MissingNodeId));
    assert_eq!(s.get(72), Some(&PwGraphItem::Node));
    assert_eq!(s.get_port_audio_channel(72), None);
}

#[test]
fn link_info_is_recorded() {
    let mut s = PwGraphState::new();
    handle_link_info(&mut s, 80, 50, 51);
    assert_eq!(s.get(80), Some(&PwGraphItem::Link { port_from: 50, port_to: 51 }));
}
