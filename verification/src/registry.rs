//! The registry of loaded resolvers: a map from key text to resolver handle.
//!
//! The registry owns its handles. It does not look inside them, so it is
//! generic in the handle type.

use vstd::prelude::*;
use crate::text::bytes_eq;

verus! {

/// A map from keys to handles. No key occurs twice.
pub struct Registry<H> {
    keys: Vec<Vec<u8>>,
    handles: Vec<H>,
}

impl<H> Registry<H> {
    /// The key stored at position `i`.
    pub closed spec fn key_at(&self, i: int) -> Seq<u8> {
        self.keys@[i]@
    }

    /// `key` is stored at position `i`.
    pub closed spec fn holds_at(&self, key: Seq<u8>, i: int) -> bool {
        0 <= i < self.keys@.len() && self.key_at(i) == key
    }

    /// Each key has a handle, and no key occurs twice.
    pub closed spec fn wf(&self) -> bool {
        &&& self.keys@.len() == self.handles@.len()
        &&& forall|i: int, j: int|
            0 <= i < self.keys@.len() && 0 <= j < self.keys@.len() && i != j
                ==> #[trigger] self.key_at(i) != #[trigger] self.key_at(j)
    }

    /// The registry as a map from key to handle.
    pub closed spec fn view(&self) -> Map<Seq<u8>, H> {
        Map::new(
            |key: Seq<u8>| exists|i: int| self.holds_at(key, i),
            |key: Seq<u8>| self.handles@[choose|i: int| self.holds_at(key, i)],
        )
    }

    proof fn lemma_stored(&self, i: int)
        requires
            self.wf(),
            0 <= i < self.keys@.len(),
        ensures
            self@.contains_key(self.key_at(i)),
            self@[self.key_at(i)] == self.handles@[i],
    {
        let key = self.key_at(i);
        assert(self.holds_at(key, i));
        let j = choose|j: int| self.holds_at(key, j);
        assert(self.holds_at(key, j));
        assert(j == i);
    }

    proof fn lemma_missing(&self, key: Seq<u8>)
        requires
            forall|i: int| 0 <= i < self.keys@.len() ==> self.key_at(i) != key,
        ensures
            !self@.contains_key(key),
    {
        assert forall|i: int| !self.holds_at(key, i) by {}
    }

    /// A registry without keys.
    pub fn new() -> (r: Self)
        ensures
            r.wf(),
            r@ == Map::<Seq<u8>, H>::empty(),
    {
        let r = Registry { keys: Vec::new(), handles: Vec::new() };
        proof {
            assert forall|key: Seq<u8>| !r@.contains_key(key) by {
                r.lemma_missing(key);
            }
            assert(r@ =~= Map::<Seq<u8>, H>::empty());
        }
        r
    }

    fn position(&self, key: &[u8]) -> (at: Option<usize>)
        requires
            self.wf(),
        ensures
            match at {
                Some(i) => i < self.handles@.len() && self.holds_at(key@, i as int)
                    && self@.contains_key(key@) && self@[key@] == self.handles@[i as int],
                None => !self@.contains_key(key@) && forall|i: int|
                    0 <= i < self.keys@.len() ==> self.key_at(i) != key@,
            },
    {
        let n: usize = self.keys.len();
        let mut i: usize = 0;
        while i < n
            invariant
                self.wf(),
                n == self.keys@.len(),
                i <= n,
                forall|j: int| 0 <= j < i ==> self.key_at(j) != key@,
            decreases n - i,
        {
            if bytes_eq(self.keys[i].as_slice(), key) {
                proof {
                    self.lemma_stored(i as int);
                }
                return Some(i);
            }
            i += 1;
        }
        proof {
            self.lemma_missing(key@);
        }
        None
    }

    /// Whether a handle is stored under `key`.
    pub fn contains_key(&self, key: &[u8]) -> (found: bool)
        requires
            self.wf(),
        ensures
            found == self@.contains_key(key@),
    {
        self.position(key).is_some()
    }

    /// The handle stored under `key`.
    pub fn get(&self, key: &[u8]) -> (handle: Option<&H>)
        requires
            self.wf(),
        ensures
            handle.is_some() == self@.contains_key(key@),
            handle.is_some() ==> *handle.unwrap() == self@[key@],
    {
        match self.position(key) {
            Some(i) => Some(&self.handles[i]),
            None => None,
        }
    }

    /// Takes the handle stored under `key` out of the registry.
    pub fn remove(&mut self, key: &[u8]) -> (removed: Option<H>)
        requires
            old(self).wf(),
        ensures
            final(self).wf(),
            final(self)@ == old(self)@.remove(key@),
            removed.is_some() == old(self)@.contains_key(key@),
            removed.is_some() ==> removed.unwrap() == old(self)@[key@],
    {
        match self.position(key) {
            Some(i) => {
                let ghost before = *self;
                self.keys.remove(i);
                let handle = self.handles.remove(i);
                proof {
                    let after = *self;
                    assert forall|j: int| 0 <= j < after.keys@.len() implies after.key_at(j)
                        == before.key_at(if j < i { j } else { j + 1 }) && after.handles@[j]
                        == before.handles@[if j < i { j } else { j + 1 }] by {}
                    assert(after.wf()) by {
                        assert forall|a: int, b: int|
                            0 <= a < after.keys@.len() && 0 <= b < after.keys@.len() && a != b implies
                            #[trigger] after.key_at(a) != #[trigger] after.key_at(b) by {
                            let a0 = if a < i { a } else { a + 1 };
                            let b0 = if b < i { b } else { b + 1 };
                            assert(before.key_at(a0) != before.key_at(b0));
                        }
                    }
                    assert forall|k: Seq<u8>| #[trigger]
                        after@.contains_key(k) == before@.remove(key@).contains_key(k) && (
                        after@.contains_key(k) ==> after@[k] == before@.remove(key@)[k]) by {
                        if after@.contains_key(k) {
                            let j = choose|j: int| after.holds_at(k, j);
                            assert(after.holds_at(k, j));
                            let j0 = if j < i { j } else { j + 1 };
                            assert(before.key_at(j0) == k);
                            assert(before.key_at(i as int) == key@);
                            assert(k != key@);
                            before.lemma_stored(j0);
                            after.lemma_stored(j);
                        } else if before@.contains_key(k) && k != key@ {
                            let j0 = choose|j: int| before.holds_at(k, j);
                            assert(before.holds_at(k, j0));
                            assert(j0 != i);
                            let j = if j0 < i { j0 } else { j0 - 1 };
                            assert(after.key_at(j) == k);
                            after.lemma_stored(j);
                        }
                    }
                    assert(after@ =~= before@.remove(key@));
                }
                Some(handle)
            },
            None => {
                proof {
                    assert(self@ =~= self@.remove(key@));
                }
                None
            },
        }
    }

    /// Stores `handle` under `key`. A handle that was stored under `key`
    /// before leaves the registry and is returned.
    pub fn insert(&mut self, key: Vec<u8>, handle: H) -> (replaced: Option<H>)
        requires
            old(self).wf(),
        ensures
            final(self).wf(),
            final(self)@ == old(self)@.insert(key@, handle),
            replaced.is_some() == old(self)@.contains_key(key@),
            replaced.is_some() ==> replaced.unwrap() == old(self)@[key@],
    {
        let replaced = self.remove(key.as_slice());
        let ghost before = *self;
        let ghost n = self.keys@.len() as int;
        proof {
            assert(!before@.contains_key(key@));
            assert forall|j: int| 0 <= j < n implies before.key_at(j) != key@ by {
                before.lemma_stored(j);
            }
        }
        self.keys.push(key);
        self.handles.push(handle);
        proof {
            let after = *self;
            assert forall|j: int| 0 <= j < n implies after.key_at(j) == before.key_at(j)
                && after.handles@[j] == before.handles@[j] by {}
            assert(after.key_at(n) == key@);
            assert(after.wf()) by {
                assert forall|a: int, b: int|
                    0 <= a < after.keys@.len() && 0 <= b < after.keys@.len() && a != b implies
                    #[trigger] after.key_at(a) != #[trigger] after.key_at(b) by {
                    if a < n && b < n {
                        assert(before.key_at(a) != before.key_at(b));
                    }
                }
            }
            assert forall|k: Seq<u8>| #[trigger]
                after@.contains_key(k) == before@.insert(key@, handle).contains_key(k) && (
                after@.contains_key(k) ==> after@[k] == before@.insert(key@, handle)[k]) by {
                if after@.contains_key(k) {
                    let j = choose|j: int| after.holds_at(k, j);
                    assert(after.holds_at(k, j));
                    after.lemma_stored(j);
                    if j < n {
                        before.lemma_stored(j);
                    }
                } else if k == key@ {
                    after.lemma_stored(n);
                } else if before@.contains_key(k) {
                    let j = choose|j: int| before.holds_at(k, j);
                    assert(before.holds_at(k, j));
                    after.lemma_stored(j);
                }
            }
            assert(after@ =~= before@.insert(key@, handle));
            assert(before@.insert(key@, handle) =~= old(self)@.insert(key@, handle));
        }
        replaced
    }
}

} // verus!
