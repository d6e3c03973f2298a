//! The identity cache: recognises a contestant across requests by mapping
//! the client's network address to the display name chosen at registration.
//! Abstractly it is a map from address to name; an entry may also disappear
//! between requests (an expiry), which callers must treat as an ordinary
//! lookup miss, so nothing here promises an entry stays.

use vstd::prelude::*;

verus! {

/// One address-to-name binding.
#[derive(Clone, Debug)]
pub struct CacheEntry {
    pub addr: String,
    pub name: String,
}

/// The name bound to `addr` in `s`, if any; a later binding shadows an
/// earlier one.
pub open spec fn lookup_seq(s: Seq<CacheEntry>, addr: Seq<char>) -> Option<Seq<char>>
    decreases s.len(),
{
    if s.len() == 0 {
        None
    } else if s.last().addr@ == addr {
        Some(s.last().name@)
    } else {
        lookup_seq(s.drop_last(), addr)
    }
}

/// Address-to-name map, stored as a sequence of bindings with pairwise
/// distinct addresses.
#[derive(Clone, Debug)]
pub struct IdentityCache {
    pub entries: Vec<CacheEntry>,
}

impl View for IdentityCache {
    type V = Map<Seq<char>, Seq<char>>;

    open spec fn view(&self) -> Map<Seq<char>, Seq<char>> {
        Map::new(
            |a: Seq<char>| lookup_seq(self.entries@, a) is Some,
            |a: Seq<char>| lookup_seq(self.entries@, a)->Some_0,
        )
    }
}

/// Pairwise distinct addresses.
pub open spec fn distinct_addrs(s: Seq<CacheEntry>) -> bool {
    forall|i: int, j: int|
        0 <= i < j < s.len() ==> (#[trigger] s[i].addr@) != (#[trigger] s[j].addr@)
}

/// Replacing the binding at an index that already holds `e`'s address
/// rebinds that address and nothing else.
proof fn lemma_lookup_update(s: Seq<CacheEntry>, j: int, e: CacheEntry, a: Seq<char>)
    requires
        distinct_addrs(s),
        0 <= j < s.len(),
        s[j].addr@ == e.addr@,
    ensures
        lookup_seq(s.update(j, e), a) == if a == e.addr@ {
            Some(e.name@)
        } else {
            lookup_seq(s, a)
        },
    decreases s.len(),
{
    let t = s.update(j, e);
    if j == s.len() - 1 {
        assert(t.last() == e);
        if a != e.addr@ {
            assert(t.drop_last() =~= s.drop_last());
        }
    } else {
        assert(t.last() == s.last());
        assert(t.drop_last() =~= s.drop_last().update(j, e));
        assert(distinct_addrs(s.drop_last())) by {
            assert(forall|i: int, k: int|
                0 <= i < k < s.len() - 1 ==> (#[trigger] s.drop_last()[i].addr@) != (
                #[trigger] s.drop_last()[k].addr@)) by {
                assert(forall|i: int|
                    0 <= i < s.len() - 1 ==> #[trigger] s.drop_last()[i] == s[i]);
            }
        }
        lemma_lookup_update(s.drop_last(), j, e, a);
        if a == e.addr@ {
            assert(s.last().addr@ != a);
        }
    }
}

/// Appending a binding for a fresh address binds that address and nothing
/// else.
proof fn lemma_lookup_push(s: Seq<CacheEntry>, e: CacheEntry, a: Seq<char>)
    ensures
        lookup_seq(s.push(e), a) == if a == e.addr@ {
            Some(e.name@)
        } else {
            lookup_seq(s, a)
        },
{
    let t = s.push(e);
    assert(t.last() == e);
    assert(t.drop_last() =~= s);
}

impl IdentityCache {
    /// Well-formed: no address is bound twice.
    pub open spec fn wf(&self) -> bool {
        distinct_addrs(self.entries@)
    }

    /// An empty cache.
    pub fn new() -> (c: IdentityCache)
        ensures
            c.wf(),
            c@ == Map::<Seq<char>, Seq<char>>::empty(),
    {
        let c = IdentityCache { entries: Vec::new() };
        proof {
            assert(c@ =~= Map::<Seq<char>, Seq<char>>::empty());
        }
        c
    }

    /// Binds `addr` to `name`, overwriting any earlier binding for `addr`.
    pub fn insert(&mut self, addr: String, name: String)
        requires
            old(self).wf(),
        ensures
            final(self).wf(),
            final(self)@ == old(self)@.insert(addr@, name@),
    {
        let n = self.entries.len();
        let mut i: usize = 0;
        while i < n
            invariant
                old(self).wf(),
                n == self.entries@.len(),
                0 <= i <= n,
                *self == *old(self),
                forall|k: int| 0 <= k < i ==> (#[trigger] self.entries@[k].addr@) != addr@,
            decreases n - i,
        {
            if self.entries[i].addr == addr {
                self.entries[i].name = name;
                proof {
                    let e = self.entries@[i as int];
                    assert(old(self).entries@.update(i as int, e) =~= self.entries@);
                    assert forall|a: Seq<char>|
                        lookup_seq(self.entries@, a) == if a == addr@ {
                            Some(name@)
                        } else {
                            lookup_seq(old(self).entries@, a)
                        } by {
                        lemma_lookup_update(old(self).entries@, i as int, e, a);
                    }
                    assert(self@ =~= old(self)@.insert(addr@, name@));
                    assert(distinct_addrs(self.entries@)) by {
                        assert(forall|k: int|
                            0 <= k < self.entries@.len() && k != i ==> #[trigger] self.entries@[k]
                                == old(self).entries@[k]);
                    }
                }
                return ;
            }
            i = i + 1;
        }
        let ghost pre = self.entries@;
        let e = CacheEntry { addr, name };
        self.entries.push(e);
        proof {
            assert forall|a: Seq<char>|
                lookup_seq(self.entries@, a) == if a == addr@ {
                    Some(name@)
                } else {
                    lookup_seq(pre, a)
                } by {
                lemma_lookup_push(pre, e, a);
            }
            assert(self@ =~= old(self)@.insert(addr@, name@));
            assert(distinct_addrs(self.entries@)) by {
                assert(forall|k: int| 0 <= k < pre.len() ==> #[trigger] self.entries@[k] == pre[k]);
                assert(self.entries@.last().addr@ == addr@);
            }
        }
    }

    /// The name bound to `addr`, if any.
    pub fn lookup(&self, addr: &String) -> (r: Option<String>)
        ensures
            match r {
                Some(n) => self@.contains_key(addr@) && self@[addr@] == n@,
                None => !self@.contains_key(addr@),
            },
    {
        let n = self.entries.len();
        proof {
            assert(self.entries@.take(n as int) =~= self.entries@);
        }
        let mut i: usize = n;
        while i > 0
            invariant
                n == self.entries@.len(),
                0 <= i <= n,
                lookup_seq(self.entries@, addr@) == lookup_seq(
                    self.entries@.take(i as int),
                    addr@,
                ),
            decreases i,
        {
            let ghost pre = self.entries@.take(i as int);
            i = i - 1;
            proof {
                assert(pre.last() == self.entries@[i as int]);
                assert(pre.drop_last() =~= self.entries@.take(i as int));
            }
            if self.entries[i].addr == *addr {
                let found = self.entries[i].name.clone();
                return Some(found);
            }
        }
        proof {
            assert(self.entries@.take(0) =~= Seq::<CacheEntry>::empty());
        }
        None
    }

    /// Drops every binding.
    pub fn clear(&mut self)
        ensures
            final(self).wf(),
            final(self)@ == Map::<Seq<char>, Seq<char>>::empty(),
    {
        self.entries.clear();
        proof {
            assert(self@ =~= Map::<Seq<char>, Seq<char>>::empty());
        }
    }
}

} // verus!
