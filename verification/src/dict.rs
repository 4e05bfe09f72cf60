use vstd::prelude::*;
use vstd::string::*;

verus! {

/// The abstract contents of a property dictionary: its key/value pairs, in order.
pub type DictView = Seq<(Seq<char>, Seq<char>)>;

/// Looks `key` up in `entries`: the value of the first pair whose key is `key`.
pub open spec fn dict_lookup(entries: DictView, key: Seq<char>) -> Option<Seq<char>>
    decreases entries.len(),
{
    if entries.len() == 0 {
        None
    } else if entries[0].0 == key {
        Some(entries[0].1)
    } else {
        dict_lookup(entries.drop_first(), key)
    }
}

/// A lookup gives `v` exactly when some entry pairs `key` with `v` and no
/// earlier entry has `key`; it gives nothing exactly when no entry has `key`.
pub proof fn lemma_dict_lookup(entries: DictView, key: Seq<char>)
    ensures
        dict_lookup(entries, key) is None <==> forall|i: int| 0 <= i < entries.len() ==> (#[trigger] entries[i]).0 != key,
        forall|v: Seq<char>| dict_lookup(entries, key) == Some(v) <==> exists|i: int|
            0 <= i < entries.len() && #[trigger] entries[i] == (key, v)
                && forall|j: int| 0 <= j < i ==> (#[trigger] entries[j]).0 != key,
    decreases entries.len(),
{
    if entries.len() > 0 {
        let rest = entries.drop_first();
        lemma_dict_lookup(rest, key);
        assert forall|i: int| 0 <= i < rest.len() implies #[trigger] rest[i] == entries[i + 1] by {}
        if entries[0].0 != key {
            assert forall|v: Seq<char>| dict_lookup(entries, key) == Some(v) <==> exists|i: int|
                0 <= i < entries.len() && #[trigger] entries[i] == (key, v)
                    && forall|j: int| 0 <= j < i ==> (#[trigger] entries[j]).0 != key by {
                if dict_lookup(entries, key) == Some(v) {
                    let k = choose|k: int| 0 <= k < rest.len() && #[trigger] rest[k] == (key, v)
                        && forall|j: int| 0 <= j < k ==> (#[trigger] rest[j]).0 != key;
                    assert(entries[k + 1] == (key, v));
                    assert forall|j: int| 0 <= j < k + 1 implies (#[trigger] entries[j]).0 != key by {
                        if j > 0 {
                            assert(entries[j] == rest[j - 1]);
                        }
                    }
                }
                if exists|i: int| 0 <= i < entries.len() && #[trigger] entries[i] == (key, v)
                    && forall|j: int| 0 <= j < i ==> (#[trigger] entries[j]).0 != key {
                    let i = choose|i: int| 0 <= i < entries.len() && #[trigger] entries[i] == (key, v)
                        && forall|j: int| 0 <= j < i ==> (#[trigger] entries[j]).0 != key;
                    assert(i > 0);
                    assert(rest[i - 1] == (key, v));
                    assert forall|j: int| 0 <= j < i - 1 implies (#[trigger] rest[j]).0 != key by {
                        assert(rest[j] == entries[j + 1]);
                    }
                }
            }
            assert((forall|i: int| 0 <= i < entries.len() ==> (#[trigger] entries[i]).0 != key)
                <==> (forall|i: int| 0 <= i < rest.len() ==> (#[trigger] rest[i]).0 != key)) by {
                if forall|i: int| 0 <= i < rest.len() ==> (#[trigger] rest[i]).0 != key {
                    assert forall|i: int| 0 <= i < entries.len() implies (#[trigger] entries[i]).0 != key by {
                        if i > 0 {
                            assert(entries[i] == rest[i - 1]);
                        }
                    }
                }
            }
        } else {
            assert forall|v: Seq<char>| dict_lookup(entries, key) == Some(v) <==> exists|i: int|
                0 <= i < entries.len() && #[trigger] entries[i] == (key, v)
                    && forall|j: int| 0 <= j < i ==> (#[trigger] entries[j]).0 != key by {
                if dict_lookup(entries, key) == Some(v) {
                    assert(entries[0] == (key, v));
                }
            }
        }
    }
}

/// A property dictionary, as PipeWire attaches to its global objects:
/// the (UTF-8) key/value pairs, in the order in which the dictionary holds them.
#[derive(Debug, PartialEq, Eq)]
pub struct Dict {
    pub entries: Vec<(String, String)>,
}

impl View for Dict {
    type V = DictView;

    open spec fn view(&self) -> DictView {
        self.entries@.map_values(|p: (String, String)| (p.0@, p.1@))
    }
}

/// Whether two strings hold the same characters.
pub fn str_equal(a: &str, b: &str) -> (r: bool)
    ensures
        r == (a@ == b@),
{
    let sa = String::from_str(a);
    let sb = String::from_str(b);
    sa == sb
}

impl Dict {
    /// The value of the first entry whose key is `key`, if any.
    pub fn get(&self, key: &str) -> (r: Option<&String>)
        ensures
            match r {
                Some(v) => dict_lookup(self@, key@) == Some(v@),
                None => dict_lookup(self@, key@) is None,
            },
    {
        let n = self.entries.len();
        let mut i: usize = 0;
        assert(self@.skip(0) =~= self@);
        while i < n
            invariant
                n == self.entries.len(),
                0 <= i <= n,
                dict_lookup(self@, key@) == dict_lookup(self@.skip(i as int), key@),
            decreases n - i,
        {
            let ghost rest = self@.skip(i as int);
            assert(rest[0] == (self.entries@[i as int].0@, self.entries@[i as int].1@));
            if str_equal(self.entries[i].0.as_str(), key) {
                return Some(&self.entries[i].1);
            }
            assert(rest.drop_first() =~= self@.skip(i + 1));
            i = i + 1;
        }
        assert(self@.skip(i as int).len() == 0);
        None
    }
}

} // verus!
