//! The peer registry ("swarm"): the shared mapping from peer address to
//! negotiated transport.
//!
//! The registry is viewed as a mathematical map from address identifiers to
//! transports. Registration inserts or replaces the entry for an address,
//! so at any instant one address resolves to at most one transport, and a
//! sequence of registrations of the same address leaves exactly the last
//! transport behind.

use crate::transport::{Address, Transport};
use vstd::prelude::*;

verus! {

/// The map described by a sequence of key/transport pairs; later pairs
/// override earlier ones.
pub open spec fn map_of(s: Seq<(u64, Transport)>) -> Map<u64, Transport>
    decreases s.len(),
{
    if s.len() == 0 {
        Map::empty()
    } else {
        map_of(s.drop_last()).insert(s.last().0, s.last().1)
    }
}

/// An address is in the map exactly when some pair carries it.
proof fn lemma_map_of_dom(s: Seq<(u64, Transport)>)
    ensures
        forall|a: u64|
            #[trigger] map_of(s).dom().contains(a) <==> exists|i: int|
                0 <= i < s.len() && #[trigger] s[i].0 == a,
    decreases s.len(),
{
    if s.len() == 0 {
        assert(map_of(s) == Map::<u64, Transport>::empty());
    } else {
        let prefix = s.drop_last();
        lemma_map_of_dom(prefix);
        assert(map_of(s) == map_of(prefix).insert(s.last().0, s.last().1));
        assert forall|a: u64| #[trigger] map_of(s).dom().contains(a) implies exists|i: int|
            0 <= i < s.len() && #[trigger] s[i].0 == a by {
            if a == s.last().0 {
                assert(s[s.len() - 1].0 == a);
            } else {
                assert(map_of(prefix).dom().contains(a));
                let i = choose|i: int| 0 <= i < prefix.len() && #[trigger] prefix[i].0 == a;
                assert(s[i].0 == a);
            }
        }
        assert forall|a: u64|
            (exists|i: int|
                0 <= i < s.len() && #[trigger] s[i].0 == a) implies #[trigger] map_of(
            s,
        ).dom().contains(a) by {
            let i = choose|i: int| 0 <= i < s.len() && #[trigger] s[i].0 == a;
            if i < s.len() - 1 {
                assert(prefix[i].0 == a);
                assert(map_of(prefix).dom().contains(a));
            }
        }
    }
}

/// With distinct keys, the pair that carries an address gives its value in
/// the map.
proof fn lemma_map_of_index(s: Seq<(u64, Transport)>, i: int)
    requires
        0 <= i < s.len(),
        forall|j: int, k: int| 0 <= j < k < s.len() ==> (#[trigger] s[j]).0 != (#[trigger] s[k]).0,
    ensures
        map_of(s).dom().contains(s[i].0),
        map_of(s)[s[i].0] == s[i].1,
    decreases s.len(),
{
    let prefix = s.drop_last();
    if i < s.len() - 1 {
        assert forall|j: int, k: int| 0 <= j < k < prefix.len() implies (#[trigger] prefix[j]).0
            != (#[trigger] prefix[k]).0 by {
            assert(s[j] == prefix[j] && s[k] == prefix[k]);
        }
        lemma_map_of_index(prefix, i);
        assert(prefix[i] == s[i]);
        assert(s[i].0 != s[s.len() - 1].0);
    }
}

/// With distinct keys, removing the pair that carries an address removes
/// exactly that address from the map.
proof fn lemma_map_of_remove(s: Seq<(u64, Transport)>, i: int)
    requires
        0 <= i < s.len(),
        forall|j: int, k: int| 0 <= j < k < s.len() ==> (#[trigger] s[j]).0 != (#[trigger] s[k]).0,
    ensures
        map_of(s.remove(i)) == map_of(s).remove(s[i].0),
    decreases s.len(),
{
    let prefix = s.drop_last();
    lemma_map_of_dom(prefix);
    if i == s.len() - 1 {
        assert(s.remove(i) =~= prefix);
        assert(!map_of(prefix).dom().contains(s[i].0)) by {
            if map_of(prefix).dom().contains(s[i].0) {
                let j = choose|j: int| 0 <= j < prefix.len() && #[trigger] prefix[j].0 == s[i].0;
                assert(s[j].0 == s[i].0);
            }
        }
        assert(map_of(s.remove(i)) =~= map_of(s).remove(s[i].0));
    } else {
        assert forall|j: int, k: int| 0 <= j < k < prefix.len() implies (#[trigger] prefix[j]).0
            != (#[trigger] prefix[k]).0 by {
            assert(s[j] == prefix[j] && s[k] == prefix[k]);
        }
        lemma_map_of_remove(prefix, i);
        assert(s.remove(i) =~= prefix.remove(i).push(s.last()));
        assert(s.remove(i).drop_last() =~= prefix.remove(i));
        assert(s.remove(i).last() == s.last());
        assert(map_of(s.remove(i)) == map_of(prefix.remove(i)).insert(s.last().0, s.last().1));
        assert(s[i] == prefix[i]);
        assert(s[i].0 != s[s.len() - 1].0);
        assert(map_of(s.remove(i)) =~= map_of(s).remove(s[i].0));
    }
}

/// With distinct keys, the map binds as many addresses as there are pairs.
proof fn lemma_map_of_card(s: Seq<(u64, Transport)>)
    requires
        forall|j: int, k: int| 0 <= j < k < s.len() ==> (#[trigger] s[j]).0 != (#[trigger] s[k]).0,
    ensures
        map_of(s).dom().finite(),
        map_of(s).dom().len() == s.len(),
    decreases s.len(),
{
    if s.len() == 0 {
        assert(map_of(s) == Map::<u64, Transport>::empty());
        assert(map_of(s).dom() =~= Set::<u64>::empty());
    } else {
        let prefix = s.drop_last();
        assert forall|j: int, k: int| 0 <= j < k < prefix.len() implies (#[trigger] prefix[j]).0
            != (#[trigger] prefix[k]).0 by {
            assert(s[j] == prefix[j] && s[k] == prefix[k]);
        }
        lemma_map_of_card(prefix);
        lemma_map_of_dom(prefix);
        assert(!map_of(prefix).dom().contains(s.last().0)) by {
            if map_of(prefix).dom().contains(s.last().0) {
                let j = choose|j: int|
                    0 <= j < prefix.len() && #[trigger] prefix[j].0 == s.last().0;
                assert(s[j].0 == s[s.len() - 1].0);
            }
        }
        assert(map_of(s).dom() =~= map_of(prefix).dom().insert(s.last().0));
    }
}

/// The peer registry.
pub struct Registry {
    entries: Vec<(u64, Transport)>,
}

impl View for Registry {
    type V = Map<u64, Transport>;

    /// The registry as the map it represents.
    closed spec fn view(&self) -> Map<u64, Transport> {
        map_of(self.entries@)
    }
}

impl Registry {
    /// Internal invariant: one entry per address.
    pub closed spec fn wf(self) -> bool {
        forall|j: int, k: int|
            0 <= j < k < self.entries@.len() ==> (#[trigger] self.entries@[j]).0
                != (#[trigger] self.entries@[k]).0
    }

    /// An empty registry.
    pub fn new() -> (r: Registry)
        ensures
            r.wf(),
            r@ == Map::<u64, Transport>::empty(),
    {
        Registry { entries: Vec::new() }
    }

    /// How many peers are registered.
    pub fn len(&self) -> (n: usize)
        requires
            self.wf(),
        ensures
            n == self@.dom().len(),
            self@.dom().finite(),
    {
        proof {
            lemma_map_of_card(self.entries@);
        }
        self.entries.len()
    }

    /// Whether an address is registered.
    #[verifier::loop_isolation(false)]
    pub fn contains(&self, addr: &Address) -> (b: bool)
        requires
            self.wf(),
        ensures
            b == self@.dom().contains(addr.id),
    {
        proof {
            lemma_map_of_dom(self.entries@);
        }
        let n = self.entries.len();
        let mut i: usize = 0;
        while i < n
            invariant
                i <= n,
                forall|k: int| 0 <= k < i ==> (#[trigger] self.entries@[k]).0 != addr.id,
            decreases n - i,
        {
            if self.entries[i].0 == addr.id {
                return true;
            }
            i = i + 1;
        }
        false
    }

    /// The transport an address resolves to, if any.
    #[verifier::loop_isolation(false)]
    pub fn get(&self, addr: &Address) -> (r: Option<Transport>)
        requires
            self.wf(),
        ensures
            match r {
                Some(t) => self@.dom().contains(addr.id) && t == self@[addr.id],
                None => !self@.dom().contains(addr.id),
            },
    {
        proof {
            lemma_map_of_dom(self.entries@);
        }
        let n = self.entries.len();
        let mut i: usize = 0;
        while i < n
            invariant
                i <= n,
                forall|k: int| 0 <= k < i ==> (#[trigger] self.entries@[k]).0 != addr.id,
            decreases n - i,
        {
            if self.entries[i].0 == addr.id {
                proof {
                    lemma_map_of_index(self.entries@, i as int);
                }
                return Some(self.entries[i].1);
            }
            i = i + 1;
        }
        None
    }

    /// Insert or replace the entry for an address. Only a transport whose
    /// answer has been applied may be registered; this is the registry's
    /// single mutation, and it settles the address to exactly one
    /// transport.
    #[verifier::loop_isolation(false)]
    pub fn register(&mut self, addr: Address, t: Transport)
        requires
            old(self).wf(),
            t.registrable(),
        ensures
            final(self).wf(),
            final(self)@ == old(self)@.insert(addr.id, t),
    {
        let ghost s0 = old(self).entries@;
        let n = self.entries.len();
        let mut i: usize = 0;
        while i < n
            invariant
                i <= n,
                self == old(self),
                forall|k: int| 0 <= k < i ==> (#[trigger] s0[k]).0 != addr.id,
            decreases n - i,
        {
            if self.entries[i].0 == addr.id {
                proof {
                    lemma_map_of_remove(s0, i as int);
                }
                let ghost removed = s0.remove(i as int);
                self.entries.remove(i);
                self.entries.push((addr.id, t));
                proof {
                    assert forall|x: int| 0 <= x < removed.len() implies (#[trigger] removed[x]).0
                        != addr.id by {
                        if x < i {
                            assert(removed[x] == s0[x]);
                        } else {
                            assert(removed[x] == s0[x + 1]);
                        }
                    }
                    assert forall|j: int, k: int|
                        0 <= j < k < removed.len() implies (#[trigger] removed[j]).0
                        != (#[trigger] removed[k]).0 by {
                        let jj: int = if j < i {
                            j
                        } else {
                            j + 1
                        };
                        let kk: int = if k < i {
                            k
                        } else {
                            k + 1
                        };
                        assert(removed[j] == s0[jj] && removed[k] == s0[kk]);
                    }
                    assert(self.entries@.drop_last() =~= removed);
                    assert(map_of(self.entries@) == map_of(removed).insert(addr.id, t));
                    assert(map_of(self.entries@) =~= map_of(s0).insert(addr.id, t));
                }
                return ;
            }
            i = i + 1;
        }
        proof {
            lemma_map_of_dom(s0);
        }
        self.entries.push((addr.id, t));
        proof {
            assert(self.entries@.drop_last() =~= s0);
            assert(map_of(self.entries@) == map_of(s0).insert(addr.id, t));
        }
    }
}

/// What repeated registrations of one address leave behind, given the
/// transports in the order they arrived.
pub open spec fn register_all(m: Map<u64, Transport>, a: u64, ts: Seq<Transport>) -> Map<
    u64,
    Transport,
>
    decreases ts.len(),
{
    if ts.len() == 0 {
        m
    } else {
        register_all(m, a, ts.drop_last()).insert(a, ts.last())
    }
}

/// Law: however many handshake attempts resolve to the same remote
/// address, the registry ends with exactly one entry for that address,
/// holding the transport registered last, and no other address is touched.
pub proof fn lemma_same_address_single_entry(m: Map<u64, Transport>, a: u64, ts: Seq<Transport>)
    requires
        ts.len() > 0,
    ensures
        register_all(m, a, ts) == m.insert(a, ts.last()),
        register_all(m, a, ts).dom() == m.dom().insert(a),
        register_all(m, a, ts)[a] == ts.last(),
    decreases ts.len(),
{
    if ts.len() == 1 {
        assert(ts.drop_last().len() == 0);
        assert(register_all(m, a, ts.drop_last()) == m);
    } else {
        lemma_same_address_single_entry(m, a, ts.drop_last());
    }
    assert(register_all(m, a, ts) =~= m.insert(a, ts.last()));
    assert(register_all(m, a, ts).dom() =~= m.dom().insert(a));
}

} // verus!
