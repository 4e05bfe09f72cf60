use pwacc::actions::{can_connect_ports, connect_ports, main_node_properties};
use pwacc::constants::Direction;
use pwacc::dict::Dict;
use pwacc::handlers::handle_port_added;
use pwacc::object::{GlobalObject, ObjectType};
use pwacc::shared::{PwGraphItem, PwGraphState};

fn pairs(d: &Dict) -> Vec<(&str, &str)> {
    d.entries.iter().map(|(k, v)| (k.as_str(), v.as_str())).collect()
}

#[test]
fn link_properties_name_nodes_and_ports() {
    let mut s = PwGraphState::new();
    s.add(101, PwGraphItem::Port { node_id: 40, direction: Direction::Output });
    s.add(202, PwGraphItem::Port { node_id: 7, direction: Direction::Input });
    assert!(can_connect_ports(&s, 101, 202));
    let props = connect_ports(&s, 101, 202);
    assert_eq!(
        pairs(&props),
        vec![
            ("link.output.node", "7"),
            ("link.output.port", "202"),
            ("link.input.node", "40"),
            ("link.input.port", "101"),
            ("object.linger", "1"),
        ]
    );
}

#[test]
fn link_properties_large_ids() {
    let mut s = PwGraphState::new();
    s.add(4294967295, PwGraphItem::Port { node_id: 0, direction: Direction::Output });
    s.add(10, PwGraphItem::Port { node_id: 1000000, direction: Direction::Input });
    let props = connect_ports(&s, 4294967295, 10);
    assert_eq!(props.entries[0].1, "1000000");
    assert_eq!(props.entries[2].1, "0");
    assert_eq!(props.entries[3].1, "4294967295");
}

#[test]
fn ports_that_cannot_be_linked() {
    let mut s = PwGraphState::new();
    s.add(1, PwGraphItem::Port { node_id: 40, direction: Direction::Output });
    s.add(2, PwGraphItem::Port { node_id: 7, direction: Direction::Input });
    s.add(3, PwGraphItem::Node);
    assert!(!can_connect_ports(&s, 2, 1));
    assert!(!can_connect_ports(&s, 1, 1));
    assert!(!can_connect_ports(&s, 1, 3));
    assert!(!can_connect_ports(&s, 9, 2));
    s.add(4, PwGraphItem::Port { node_id: 7, direction: Direction::Other(5) });
    assert!(!can_connect_ports(&s, 1, 4));
}

#[test]
fn main_node_is_a_null_audio_sink() {
    let props = main_node_properties("pwacc_node", "PWACC");
    assert_eq!(
        pairs(&props),
        vec![
            ("node.name", "pwacc_node"),
            ("node.description", "PWACC"),
            ("factory.name", "support.null-audio-sink"),
            ("media.class", "Audio/Sink"),
            ("object.linger", "false"),
        ]
    );
}

#[test]
fn link_ids_read_back() {
    for n in [0u32, 9, 10, 99, 100, 65536, 4294967295] {
        let mut s = PwGraphState::new();
        s.add(1, PwGraphItem::Port { node_id: n, direction: Direction::Output });
        s.add(2, PwGraphItem::Port { node_id: 0, direction: Direction::Input });
        let props = connect_ports(&s, 1, 2);
        let written = props.entries[2].1.clone();
        let port = GlobalObject {
            id: 3,
            type_: ObjectType::Port,
            props: Some(Dict {
                entries: vec![
                    ("node.id".to_string(), written),
                    ("port.direction".to_string(), "in".to_string()),
                ],
            }),
        };
        let mut t = PwGraphState::new();
        assert_eq!(handle_port_added(&mut t, &port), Ok(()));
        assert_eq!(t.get(3), Some(&PwGraphItem::Port { node_id: n, direction: Direction::Input }));
    }
}
