use vstd::prelude::*;
use std::collections::HashMap;
use crate::constants::Direction;
use vstd::std_specs::iter::IteratorSpec;

verus! {

broadcast use vstd::std_specs::hash::group_hash_axioms;

/// What the controller knows of an object of the PipeWire graph.
#[derive(Clone, Copy, Debug, PartialEq, Eq, Structural)]
pub enum PwGraphItem {
    Node,
    Port { node_id: u32, direction: Direction },
    Link { port_from: u32, port_to: u32 },
}

/// The number under which a pair of 32-bit numbers is kept in a map keyed by 64-bit numbers:
/// the first number in the high half, the second in the low half.
pub open spec fn pair_key(a: u32, b: u32) -> u64 {
    ((a as int) * 0x1_0000_0000 + (b as int)) as u64
}

/// Two different pairs are kept under two different numbers.
pub proof fn lemma_pair_key_injective(a: u32, b: u32, c: u32, d: u32)
    ensures
        pair_key(a, b) == pair_key(c, d) ==> a == c && b == d,
{
    assert((a as int) * 0x1_0000_0000 + (b as int) <= u64::MAX);
    assert((c as int) * 0x1_0000_0000 + (d as int) <= u64::MAX);
    if a < c {
        assert((a as int) * 0x1_0000_0000 + (b as int) < (c as int) * 0x1_0000_0000 + (d as int));
    } else if c < a {
        assert((c as int) * 0x1_0000_0000 + (d as int) < (a as int) * 0x1_0000_0000 + (b as int));
    }
}

/// Computes `pair_key(a, b)`.
pub fn make_pair_key(a: u32, b: u32) -> (k: u64)
    ensures
        k == pair_key(a, b),
{
    (a as u64) * 0x1_0000_0000u64 + (b as u64)
}

/// A map keyed by 64-bit numbers, read as a map keyed by pairs of 32-bit numbers.
pub open spec fn pair_map(m: Map<u64, u32>) -> Map<(u32, u32), u32> {
    Map::new(
        |k: (u32, u32)| m.contains_key(pair_key(k.0, k.1)),
        |k: (u32, u32)| m[pair_key(k.0, k.1)],
    )
}

/// Inserting under the number of a pair inserts the pair.
pub proof fn lemma_pair_map_insert(m: Map<u64, u32>, a: u32, b: u32, v: u32)
    ensures
        pair_map(m.insert(pair_key(a, b), v)) == pair_map(m).insert((a, b), v),
{
    assert forall|k: (u32, u32)| #[trigger] pair_map(m.insert(pair_key(a, b), v)).contains_key(k)
        == pair_map(m).insert((a, b), v).contains_key(k) by {
        lemma_pair_key_injective(k.0, k.1, a, b);
    }
    assert forall|k: (u32, u32)| pair_map(m.insert(pair_key(a, b), v)).contains_key(k)
        implies #[trigger] pair_map(m.insert(pair_key(a, b), v))[k] == pair_map(m).insert((a, b), v)[k] by {
        lemma_pair_key_injective(k.0, k.1, a, b);
    }
    assert(pair_map(m.insert(pair_key(a, b), v)) =~= pair_map(m).insert((a, b), v));
}

/// Removing the number of a pair removes the pair.
pub proof fn lemma_pair_map_remove(m: Map<u64, u32>, a: u32, b: u32)
    ensures
        pair_map(m.remove(pair_key(a, b))) == pair_map(m).remove((a, b)),
{
    assert forall|k: (u32, u32)| #[trigger] pair_map(m.remove(pair_key(a, b))).contains_key(k)
        == pair_map(m).remove((a, b)).contains_key(k) by {
        lemma_pair_key_injective(k.0, k.1, a, b);
    }
    assert(pair_map(m.remove(pair_key(a, b))) =~= pair_map(m).remove((a, b)));
}

/// The abstract state of the graph: its objects by id, the links by the pair
/// of ports they join, and the audio channel of each port that has one.
pub struct PwGraphStateView {
    pub items: Map<u32, PwGraphItem>,
    pub links: Map<(u32, u32), u32>,
    pub port_audio_channels: Map<u32, u32>,
}

/// What the controller knows of the PipeWire graph.
pub struct PwGraphState {
    items: HashMap<u32, PwGraphItem>,
    links: HashMap<u64, u32>,
    port_audio_channels: HashMap<u32, u32>,
}

impl View for PwGraphState {
    type V = PwGraphStateView;

    closed spec fn view(&self) -> PwGraphStateView {
        PwGraphStateView {
            items: self.items@,
            links: pair_map(self.links@),
            port_audio_channels: self.port_audio_channels@,
        }
    }
}

/// The state after recording `item` under `id`: the item replaces any other of
/// that id, and a link is also filed under the pair of ports it joins.
pub open spec fn state_after_add(s: PwGraphStateView, id: u32, item: PwGraphItem) -> PwGraphStateView {
    PwGraphStateView {
        items: s.items.insert(id, item),
        links: match item {
            PwGraphItem::Link { port_from, port_to } => s.links.insert((port_from, port_to), id),
            _ => s.links,
        },
        port_audio_channels: s.port_audio_channels,
    }
}

/// The state after forgetting the object `id`: a link is also unfiled from
/// its pair of ports, and a port loses its audio channel.
pub open spec fn state_after_del(s: PwGraphStateView, id: u32) -> PwGraphStateView {
    PwGraphStateView {
        items: s.items.remove(id),
        links: match s.items.get(id) {
            Some(PwGraphItem::Link { port_from, port_to }) => s.links.remove((port_from, port_to)),
            _ => s.links,
        },
        port_audio_channels: match s.items.get(id) {
            Some(PwGraphItem::Port { .. }) => s.port_audio_channels.remove(id),
            _ => s.port_audio_channels,
        },
    }
}

/// Whether `id` is recorded as a port of node `node`.
pub open spec fn is_port_of(items: Map<u32, PwGraphItem>, id: u32, node: u32) -> bool {
    items.contains_key(id) && match items[id] {
        PwGraphItem::Port { node_id, .. } => node_id == node,
        _ => false,
    }
}

/// What is recorded under an id is what was last added under it, and adding
/// under one id leaves every other id as it was.
pub proof fn lemma_get_after_add(s: PwGraphStateView, id: u32, item: PwGraphItem, other: u32)
    ensures
        state_after_add(s, id, item).items.get(id) == Some(item),
        other != id ==> state_after_add(s, id, item).items.get(other) == s.items.get(other),
{
}

/// Forgetting an id right after adding under it gives the added item back,
/// leaves no object under that id, unfiles a link from its pair of ports and
/// drops the audio channel of a port; every other id keeps what it had.
pub proof fn lemma_del_after_add(s: PwGraphStateView, id: u32, item: PwGraphItem, other: u32)
    ensures
        state_after_add(s, id, item).items.get(id) == Some(item),
        state_after_del(state_after_add(s, id, item), id).items == s.items.remove(id),
        other != id ==> state_after_del(state_after_add(s, id, item), id).items.get(other) == s.items.get(other),
        item matches PwGraphItem::Link { port_from, port_to }
            ==> !state_after_del(state_after_add(s, id, item), id).links.contains_key((port_from, port_to)),
        !(item is Link) ==> state_after_del(state_after_add(s, id, item), id).links == s.links,
        item is Port ==> !state_after_del(state_after_add(s, id, item), id).port_audio_channels.contains_key(id),
        !(item is Port) ==> state_after_del(state_after_add(s, id, item), id).port_audio_channels
            == s.port_audio_channels,
{
    assert(state_after_del(state_after_add(s, id, item), id).items =~= s.items.remove(id));
}

/// Forgetting `id` touches nothing but `id`: no object is left under `id`, what
/// was recorded under it is what is forgotten, every other id keeps its object
/// and its audio channel, and only the pair of ports of a forgotten link is
/// unfiled. Forgetting an id that holds nothing changes nothing.
pub proof fn lemma_del_frame(s: PwGraphStateView, id: u32, other: u32, ports: (u32, u32))
    ensures
        state_after_del(s, id).items.get(id) is None,
        other != id ==> state_after_del(s, id).items.get(other) == s.items.get(other),
        other != id ==> state_after_del(s, id).port_audio_channels.get(other) == s.port_audio_channels.get(other),
        !(s.items.get(id) matches Some(PwGraphItem::Link { port_from, port_to }) && ports == (port_from, port_to))
            ==> state_after_del(s, id).links.get(ports) == s.links.get(ports),
        s.items.get(id) matches Some(PwGraphItem::Link { port_from, port_to })
            ==> state_after_del(s, id).links.get((port_from, port_to)) is None,
        s.items.get(id) matches Some(PwGraphItem::Port { .. })
            ==> state_after_del(s, id).port_audio_channels.get(id) is None,
        !(s.items.get(id) matches Some(PwGraphItem::Port { .. }))
            ==> state_after_del(s, id).port_audio_channels == s.port_audio_channels,
        s.items.get(id) is None ==> state_after_del(s, id) == s,
{
    if s.items.get(id) is None {
        assert(s.items.remove(id) =~= s.items);
    }
}

/// Adding under `id` touches nothing but `id`, and the pair of ports of an
/// added link: every other id keeps its object, no audio channel changes, and
/// every other pair of ports keeps its link.
pub proof fn lemma_add_frame(s: PwGraphStateView, id: u32, item: PwGraphItem, other: u32, ports: (u32, u32))
    ensures
        state_after_add(s, id, item).items.get(id) == Some(item),
        other != id ==> state_after_add(s, id, item).items.get(other) == s.items.get(other),
        state_after_add(s, id, item).port_audio_channels == s.port_audio_channels,
        item matches PwGraphItem::Link { port_from, port_to } ==> state_after_add(s, id, item).links.get(
            (port_from, port_to),
        ) == Some(id),
        !(item matches PwGraphItem::Link { port_from, port_to } && ports == (port_from, port_to))
            ==> state_after_add(s, id, item).links.get(ports) == s.links.get(ports),
{
}

impl PwGraphState {
    /// An empty graph.
    pub fn new() -> (s: Self)
        ensures
            s@.items == Map::<u32, PwGraphItem>::empty(),
            s@.links == Map::<(u32, u32), u32>::empty(),
            s@.port_audio_channels == Map::<u32, u32>::empty(),
    {
        let s = PwGraphState {
            items: HashMap::new(),
            links: HashMap::new(),
            port_audio_channels: HashMap::new(),
        };
        assert(pair_map(s.links@) =~= Map::<(u32, u32), u32>::empty());
        s
    }

    /// Records `item` under `id`.
    pub fn add(&mut self, id: u32, item: PwGraphItem)
        ensures
            final(self)@ == state_after_add(old(self)@, id, item),
    {
        if let PwGraphItem::Link { port_from, port_to } = item {
            let key = make_pair_key(port_from, port_to);
            proof {
                lemma_pair_map_insert(self.links@, port_from, port_to, id);
            }
            self.links.insert(key, id);
        }
        self.items.insert(id, item);
    }

    /// Records `ch` as the audio channel of port `id`.
    pub fn set_port_audio_channel(&mut self, id: u32, ch: u32)
        ensures
            final(self)@.items == old(self)@.items,
            final(self)@.links == old(self)@.links,
            final(self)@.port_audio_channels == old(self)@.port_audio_channels.insert(id, ch),
    {
        self.port_audio_channels.insert(id, ch);
    }

    /// The audio channel recorded for port `id`, if any.
    pub fn get_port_audio_channel(&self, id: u32) -> (r: Option<&u32>)
        ensures
            match r {
                Some(ch) => self@.port_audio_channels.get(id) == Some(*ch),
                None => self@.port_audio_channels.get(id) is None,
            },
    {
        self.port_audio_channels.get(&id)
    }

    /// The object recorded under `id`, if any.
    pub fn get(&self, id: u32) -> (r: Option<&PwGraphItem>)
        ensures
            match r {
                Some(item) => self@.items.get(id) == Some(*item),
                None => self@.items.get(id) is None,
            },
    {
        self.items.get(&id)
    }

    /// Forgets the object `id`, and returns what was recorded under it.
    pub fn del(&mut self, id: u32) -> (r: Option<PwGraphItem>)
        ensures
            r == old(self)@.items.get(id),
            final(self)@ == state_after_del(old(self)@, id),
    {
        let old = self.items.remove(&id);
        if let Some(PwGraphItem::Link { port_from, port_to }) = old {
            let key = make_pair_key(port_from, port_to);
            proof {
                lemma_pair_map_remove(self.links@, port_from, port_to);
            }
            self.links.remove(&key);
        }
        if let Some(PwGraphItem::Port { .. }) = old {
            self.port_audio_channels.remove(&id);
        }
        old
    }

    /// The ids of the ports recorded as belonging to `node`, each once, in no
    /// particular order.
    pub fn ports_for_node(&self, node: &u32) -> (r: Vec<&u32>)
        ensures
            r@.no_duplicates(),
            forall|i: int| 0 <= i < r.len() ==> is_port_of(self@.items, *#[trigger] r@[i], *node),
            forall|id: u32| is_port_of(self@.items, id, *node) ==> #[trigger] r@.contains(&id),
    {
        let ghost m = self.items@;
        let ghost pairs = vstd::std_specs::hash::spec_hash_map_iter(&self.items).remaining();
        let mut matched_ports: Vec<&u32> = Vec::new();
        for (k, v) in it: self.items.iter()
            invariant
                m == self.items@,
                it.seq() == pairs,
                pairs.no_duplicates(),
                pairs.len() == m.dom().len(),
                forall|j: int| 0 <= j < pairs.len() ==> m.contains_key(*#[trigger] pairs[j].0) && m[*pairs[j].0] == *pairs[j].1,
                forall|id: u32| #[trigger] m.contains_key(id) ==> pairs.contains((&id, &m[id])),
                matched_ports@.no_duplicates(),
                forall|i: int| 0 <= i < matched_ports.len() ==> is_port_of(m, *#[trigger] matched_ports@[i], *node),
                forall|i: int, j: int| 0 <= i < matched_ports.len() && it.index() <= j < pairs.len() ==> *#[trigger] matched_ports@[i] != *#[trigger] pairs[j].0,
                forall|j: int| 0 <= j < it.index() && is_port_of(m, *#[trigger] pairs[j].0, *node) ==> matched_ports@.contains(pairs[j].0),
        {
            let ghost idx = it.index();
            let ghost before = matched_ports@;
            assert(pairs[idx] == (k, v));
            if let PwGraphItem::Port { node_id, .. } = v {
                if node_id == node {
                    matched_ports.push(k);
                    proof {
                        assert forall|i: int, j: int| 0 <= i < matched_ports.len() && idx + 1 <= j < pairs.len()
                            implies *#[trigger] matched_ports@[i] != *#[trigger] pairs[j].0 by {
                            if i < before.len() {
                                assert(matched_ports@[i] == before[i]);
                            } else {
                                if *pairs[j].0 == *k {
                                    assert(pairs[j] == pairs[idx]);
                                }
                            }
                        }
                    }
                }
            }
            proof {
                assert forall|j: int| 0 <= j < idx + 1 && is_port_of(m, *#[trigger] pairs[j].0, *node) implies matched_ports@.contains(pairs[j].0) by {
                    if j < idx {
                        assert(before.contains(pairs[j].0));
                        let t = choose|t: int| 0 <= t < before.len() && before[t] == pairs[j].0;
                        assert(matched_ports@[t] == before[t]);
                    } else {
                        assert(matched_ports@[matched_ports.len() - 1] == pairs[j].0);
                    }
                }
            }
        }
        proof {
            assert forall|id: u32| is_port_of(m, id, *node) implies #[trigger] matched_ports@.contains(&id) by {
                assert(pairs.contains((&id, &m[id])));
                let j = choose|j: int| 0 <= j < pairs.len() && pairs[j] == (&id, &m[id]);
                assert(is_port_of(m, *pairs[j].0, *node));
            }
        }
        matched_ports
    }
}

} // verus!
