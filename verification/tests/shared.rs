use pwacc::constants::Direction;
use pwacc::shared::{PwGraphItem, PwGraphState};

#[test]
fn add_then_get() {
    let mut s = PwGraphState::new();
    assert_eq!(s.get(3), None);
    s.add(3, PwGraphItem::Node);
    assert_eq!(s.get(3), Some(&PwGraphItem::Node));
    s.add(3, PwGraphItem::Port { node_id: 1, direction: Direction::Input });
    assert_eq!(s.get(3), Some(&PwGraphItem::Port { node_id: 1, direction: Direction::Input }));
    assert_eq!(s.get(4), None);
}

#[test]
fn del_gives_back_what_was_added() {
    let mut s = PwGraphState::new();
    s.add(7, PwGraphItem::Link { port_from: 5, port_to: 6 });
    s.add(8, PwGraphItem::Node);
    assert_eq!(s.del(7), Some(PwGraphItem::Link { port_from: 5, port_to: 6 }));
    assert_eq!(s.get(7), None);
    assert_eq!(s.get(8), Some(&PwGraphItem::Node));
    assert_eq!(s.del(7), None);
}

#[test]
fn port_channel_set_get_and_dropped_with_port() {
    let mut s = PwGraphState::new();
    s.add(5, PwGraphItem::Port { node_id: 2, direction: Direction::Output });
    assert_eq!(s.get_port_audio_channel(5), None);
    s.set_port_audio_channel(5, 3);
    assert_eq!(s.get_port_audio_channel(5), Some(&3));
    s.set_port_audio_channel(5, 4);
    assert_eq!(s.get_port_audio_channel(5), Some(&4));
    s.del(5);
    assert_eq!(s.get_port_audio_channel(5), None);
}

#[test]
fn channel_of_non_port_survives_del() {
    let mut s = PwGraphState::new();
    s.add(9, PwGraphItem::Node);
    s.set_port_audio_channel(9, 3);
    s.del(9);
    assert_eq!(s.get_port_audio_channel(9), Some(&3));
}

#[test]
fn ports_for_node_lists_each_port_once() {
    let mut s = PwGraphState::new();
    s.add(1, PwGraphItem::Node);
    s.add(10, PwGraphItem::Port { node_id: 1, direction: Direction::Output });
    s.add(11, PwGraphItem::Port { node_id: 1, direction: Direction::Input });
    s.add(12, PwGraphItem::Port { node_id: 2, direction: Direction::Output });
    s.add(13, PwGraphItem::Link { port_from: 10, port_to: 12 });
    let mut ports: Vec<u32> = s.ports_for_node(&1).into_iter().copied().collect();
    ports.sort();
    assert_eq!(ports, vec![10, 11]);
    assert_eq!(s.ports_for_node(&2), vec![&12]);
    assert!(s.ports_for_node(&3).is_empty());
    s.del(10);
    assert_eq!(s.ports_for_node(&1), vec![&11]);
}
