//! The cache store: a shared key-to-bytes map, the only persistent state of
//! the caching layer.
//!
//! A store maps cache keys (strings) to cached payloads (immutable byte
//! sequences). At most one payload is observable per key; a write replaces
//! any prior value for that key; there is no expiry and no size bound. The
//! representation appends entries and lets the newest entry for a key shadow
//! older ones, which the view hides.

use vstd::prelude::*;

verus! {

/// What a lookup returns, as a function of the store's abstract map: the
/// stored bytes if the key is present, else nothing.
pub open spec fn lookup_spec(m: Map<Seq<char>, Seq<u8>>, key: Seq<char>) -> Option<Seq<u8>> {
    if m.contains_key(key) {
        Some(m[key])
    } else {
        None
    }
}

/// An in-memory map from cache keys to cached response bodies.
pub struct CacheStore {
    entries: Vec<(String, Vec<u8>)>,
}

impl View for CacheStore {
    type V = Map<Seq<char>, Seq<u8>>;

    closed spec fn view(&self) -> Map<Seq<char>, Seq<u8>> {
        Self::map_of(self.entries@)
    }
}

impl CacheStore {
    /// The abstract map of a list of entries; a later entry for a key shadows
    /// every earlier one.
    pub closed spec fn map_of(entries: Seq<(String, Vec<u8>)>) -> Map<Seq<char>, Seq<u8>>
        decreases entries.len(),
    {
        if entries.len() == 0 {
            Map::empty()
        } else {
            Self::map_of(entries.drop_last()).insert(entries.last().0@, entries.last().1@)
        }
    }

    /// Creates an empty store.
    pub fn new() -> (store: Self)
        ensures
            store@ == Map::<Seq<char>, Seq<u8>>::empty(),
    {
        let store = CacheStore { entries: Vec::new() };
        proof {
            assert(store@ =~= Map::<Seq<char>, Seq<u8>>::empty());
        }
        store
    }

    /// Non-blocking read: returns a copy of the stored bytes for `key` if an
    /// entry is present, else nothing. No side effects.
    pub fn get(&self, key: &String) -> (payload: Option<Vec<u8>>)
        ensures
            match payload {
                Some(bytes) => lookup_spec(self@, key@) == Some(bytes@),
                None => lookup_spec(self@, key@) == None::<Seq<u8>>,
            },
            payload is Some <==> self@.contains_key(key@),
    {
        let n: usize = self.entries.len();
        let mut i: usize = n;
        proof {
            assert(self.entries@.subrange(0, n as int) =~= self.entries@);
        }
        while i > 0
            invariant
                i <= n,
                n == self.entries@.len(),
                lookup_spec(Self::map_of(self.entries@.subrange(0, i as int)), key@)
                    == lookup_spec(self@, key@),
            decreases i,
        {
            i = i - 1;
            proof {
                assert(self.entries@.subrange(0, i + 1 as int).drop_last()
                    =~= self.entries@.subrange(0, i as int));
                assert(self.entries@.subrange(0, i + 1 as int).last() == self.entries@[i as int]);
            }
            let entry = &self.entries[i];
            if entry.0.eq(key) {
                let bytes = entry.1.clone();
                proof {
                    assert(bytes@ =~= entry.1@);
                }
                return Some(bytes);
            }
        }
        proof {
            assert(self.entries@.subrange(0, 0) =~= Seq::<(String, Vec<u8>)>::empty());
        }
        None
    }

    /// Inserts or overwrites the entry for `key` and returns the payload
    /// unchanged as confirmation.
    pub fn set(&mut self, key: String, payload: Vec<u8>) -> (confirmed: Vec<u8>)
        ensures
            final(self)@ == old(self)@.insert(key@, payload@),
            confirmed@ == payload@,
    {
        let stored = payload.clone();
        proof {
            assert(stored@ =~= payload@);
        }
        let ghost old_entries = self.entries@;
        self.entries.push((key, stored));
        proof {
            assert(self.entries@.drop_last() =~= old_entries);
        }
        payload
    }
}

/// Lookup idempotence: with no intervening write, two lookups for the same
/// key against the same store contents return identical payloads.
pub proof fn lemma_lookup_idempotent(
    m: Map<Seq<char>, Seq<u8>>,
    key: Seq<char>,
    first: Option<Seq<u8>>,
    second: Option<Seq<u8>>,
)
    requires
        first == lookup_spec(m, key),
        second == lookup_spec(m, key),
    ensures
        first == second,
{
}

/// Per-key isolation: writes under two distinct keys land in independent
/// entries, so each key's final payload equals its own write, whichever
/// order the two writes interleave in.
pub proof fn lemma_per_key_isolation(
    m: Map<Seq<char>, Seq<u8>>,
    k1: Seq<char>,
    b1: Seq<u8>,
    k2: Seq<char>,
    b2: Seq<u8>,
)
    requires
        k1 != k2,
    ensures
        lookup_spec(m.insert(k1, b1).insert(k2, b2), k1) == Some(b1),
        lookup_spec(m.insert(k1, b1).insert(k2, b2), k2) == Some(b2),
        lookup_spec(m.insert(k2, b2).insert(k1, b1), k1) == Some(b1),
        lookup_spec(m.insert(k2, b2).insert(k1, b1), k2) == Some(b2),
{
}

/// Miss then hit: populating an entry for a previously absent key makes the
/// next lookup for that key a hit returning exactly the stored bytes — and,
/// since the key is now present, a later execution for it never forwards to
/// the downstream handler again.
pub proof fn lemma_miss_then_hit(m: Map<Seq<char>, Seq<u8>>, key: Seq<char>, body: Seq<u8>)
    requires
        !m.contains_key(key),
    ensures
        lookup_spec(m.insert(key, body), key) == Some(body),
        m.insert(key, body).contains_key(key),
{
}

} // verus!
