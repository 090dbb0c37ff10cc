//! Keyed storage for the short-lived interaction sessions (ticket creation, replies,
//! setup, settings forms). Each session is found again by the ID that was placed
//! in the custom IDs of the components that belong to it.
use vstd::prelude::*;

verus! {

/// Whether `s` has the shape of a session ID: lowercase ASCII letters and digits,
/// beginning with a letter.
pub open spec fn is_session_id(s: Seq<char>) -> bool {
    &&& s.len() > 0
    &&& 'a' <= s[0] <= 'z'
    &&& forall|i: int| 0 <= i < s.len() ==> ('a' <= #[trigger] s[i] <= 'z' || '0' <= s[i] <= '9')
}

/// A new random session ID from `cuid2::create_id`: a lowercase letter followed by the
/// base-36 digits (`0`-`9`, `a`-`z`) of a hash. Which ID comes out is left open.
#[verifier::external_body]
fn new_session_id() -> (id: String)
    ensures
        is_session_id(id@),
{
    cuid2::create_id()
}

/// Sessions of type `V`, each under a distinct string key.
pub struct SessionStore<V> {
    entries: Vec<(String, V)>,
}

impl<V> SessionStore<V> {
    /// The keys of the stored sessions, in storage order.
    pub closed spec fn keys(&self) -> Seq<Seq<char>> {
        self.entries@.map_values(|e: (String, V)| e.0@)
    }

    #[verifier::type_invariant]
    spec fn keys_distinct(&self) -> bool {
        self.keys().no_duplicates()
    }

    /// The sessions, by key.
    pub closed spec fn sessions(&self) -> Map<Seq<char>, V> {
        Map::new(
            |k: Seq<char>| self.keys().contains(k),
            |k: Seq<char>| self.entries@[self.keys().index_of(k)].1,
        )
    }

    proof fn lemma_lookup(&self, i: int)
        requires
            self.keys().no_duplicates(),
            0 <= i < self.entries@.len(),
        ensures
            self.sessions().dom().contains(self.entries@[i].0@),
            self.sessions()[self.entries@[i].0@] == self.entries@[i].1,
    {
        let k = self.entries@[i].0@;
        assert(self.keys()[i] == k);
        assert(self.keys().contains(k));
        let j = self.keys().index_of(k);
        assert(self.keys()[j] == k);
    }

    /// An empty store.
    pub fn new() -> (s: Self)
        ensures
            s.sessions() == Map::<Seq<char>, V>::empty(),
    {
        let s = SessionStore { entries: Vec::new() };
        assert(s.sessions() =~= Map::<Seq<char>, V>::empty());
        s
    }

    /// The number of stored sessions.
    pub fn len(&self) -> (n: usize)
        ensures
            n == self.sessions().dom().len(),
    {
        proof {
            use_type_invariant(self);
            self.keys().unique_seq_to_set();
            assert(self.sessions().dom() =~= self.keys().to_set());
        }
        self.entries.len()
    }

    fn position(&self, key: &String) -> (res: Option<usize>)
        ensures
            res matches Some(i) ==> i < self.entries@.len() && self.keys()[i as int] == key@,
            res is None ==> !self.keys().contains(key@),
    {
        let mut i: usize = 0;
        while i < self.entries.len()
            invariant
                i <= self.entries@.len(),
                forall|j: int| 0 <= j < i ==> self.keys()[j] != key@,
            decreases self.entries.len() - i,
        {
            if self.entries[i].0 == *key {
                return Some(i);
            }
            i = i + 1;
        }
        None
    }

    /// Whether a session is stored under `key`.
    pub fn contains_key(&self, key: &String) -> (res: bool)
        ensures
            res == self.sessions().dom().contains(key@),
    {
        self.position(key).is_some()
    }

    /// The session stored under `key`.
    pub fn get(&self, key: &String) -> (res: Option<&V>)
        ensures
            res is Some <==> self.sessions().dom().contains(key@),
            res matches Some(v) ==> *v == self.sessions()[key@],
    {
        proof {
            use_type_invariant(self);
        }
        match self.position(key) {
            Some(i) => {
                proof {
                    self.lemma_lookup(i as int);
                }
                Some(&self.entries[i].1)
            },
            None => None,
        }
    }

    /// Removes the session stored under `key` and hands it back.
    pub fn remove(&mut self, key: &String) -> (res: Option<V>)
        ensures
            res is Some <==> old(self).sessions().dom().contains(key@),
            res matches Some(v) ==> v == old(self).sessions()[key@],
            final(self).sessions() == old(self).sessions().remove(key@),
    {
        proof {
            use_type_invariant(&*self);
        }
        match self.position(key) {
            Some(i) => {
                let ghost before = *self;
                proof {
                    before.lemma_lookup(i as int);
                }
                let mut taken = SessionStore { entries: Vec::new() };
                std::mem::swap(&mut taken, self);
                let mut entries = taken.entries;
                let (_, v) = entries.remove(i);
                proof {
                    let ks = before.keys();
                    let nks = entries@.map_values(|e: (String, V)| e.0@);
                    assert(nks =~= ks.remove(i as int));
                    assert forall|a: int, b: int|
                        0 <= a < nks.len() && 0 <= b < nks.len() && a != b
                        implies nks[a] != nks[b] by {
                        let a2 = if a < i { a } else { a + 1 };
                        let b2 = if b < i { b } else { b + 1 };
                        assert(nks[a] == ks[a2]);
                        assert(nks[b] == ks[b2]);
                    }
                }
                *self = SessionStore { entries };
                proof {
                    let ks = before.keys();
                    assert(self.keys() =~= ks.remove(i as int));
                    assert forall|a: int, b: int|
                        0 <= a < self.keys().len() && 0 <= b < self.keys().len() && a != b
                        implies self.keys()[a] != self.keys()[b] by {
                        let a2 = if a < i { a } else { a + 1 };
                        let b2 = if b < i { b } else { b + 1 };
                        assert(self.keys()[a] == ks[a2]);
                        assert(self.keys()[b] == ks[b2]);
                    }
                    assert forall|k: Seq<char>|
                        #[trigger] self.sessions().dom().contains(k)
                        <==> before.sessions().remove(key@).dom().contains(k) by {
                        if self.keys().contains(k) {
                            let j = self.keys().index_of(k);
                            let j2 = if j < i { j } else { j + 1 };
                            assert(ks[j2] == k);
                            assert(ks.contains(k));
                            assert(j2 != i);
                        }
                        if k != key@ && ks.contains(k) {
                            let j = ks.index_of(k);
                            assert(j != i);
                            let j2 = if j < i { j } else { j - 1 };
                            assert(self.keys()[j2] == k);
                        }
                    }
                    assert forall|k: Seq<char>| #[trigger] self.sessions().dom().contains(k) implies
                        self.sessions()[k] == before.sessions()[k] by {
                        let j = self.keys().index_of(k);
                        let j2 = if j < i { j } else { j + 1 };
                        assert(self.entries@[j] == before.entries@[j2]);
                        self.lemma_lookup(j);
                        before.lemma_lookup(j2);
                    }
                    assert(self.sessions() =~= before.sessions().remove(key@));
                }
                Some(v)
            },
            None => {
                assert(self.sessions() =~= old(self).sessions().remove(key@));
                None
            },
        }
    }

    /// Stores `value` under a new random session ID, and hands the ID back.
    pub fn open(&mut self, value: V) -> (id: String)
        ensures
            is_session_id(id@),
            final(self).sessions() == old(self).sessions().insert(id@, value),
    {
        let id = new_session_id();
        self.insert(id.clone(), value);
        id
    }

    /// Stores `value` under `key`, replacing any session stored there before.
    pub fn insert(&mut self, key: String, value: V)
        ensures
            final(self).sessions() == old(self).sessions().insert(key@, value),
    {
        let _ = self.remove(&key);
        proof {
            use_type_invariant(&*self);
        }
        let ghost before = *self;
        assert(!before.sessions().dom().contains(key@));
        assert(!before.keys().contains(key@));
        let mut taken = SessionStore { entries: Vec::new() };
        std::mem::swap(&mut taken, self);
        let mut entries = taken.entries;
        entries.push((key, value));
        proof {
            let ks = before.keys();
            let nks = entries@.map_values(|e: (String, V)| e.0@);
            assert(nks =~= ks.push(key@));
            assert forall|a: int, b: int|
                0 <= a < nks.len() && 0 <= b < nks.len() && a != b
                implies nks[a] != nks[b] by {
                if a < ks.len() && b < ks.len() {
                    assert(nks[a] == ks[a]);
                    assert(nks[b] == ks[b]);
                } else if a < ks.len() {
                    assert(nks[a] == ks[a]);
                    assert(ks.contains(ks[a]));
                } else if b < ks.len() {
                    assert(nks[b] == ks[b]);
                    assert(ks.contains(ks[b]));
                }
            }
        }
        *self = SessionStore { entries };
        proof {
            let ks = before.keys();
            assert(self.keys() =~= ks.push(key@));
            assert forall|a: int, b: int|
                0 <= a < self.keys().len() && 0 <= b < self.keys().len() && a != b
                implies self.keys()[a] != self.keys()[b] by {
                if a < ks.len() && b < ks.len() {
                    assert(self.keys()[a] == ks[a]);
                    assert(self.keys()[b] == ks[b]);
                } else if a < ks.len() {
                    assert(self.keys()[a] == ks[a]);
                    assert(ks.contains(ks[a]));
                } else if b < ks.len() {
                    assert(self.keys()[b] == ks[b]);
                    assert(ks.contains(ks[b]));
                }
            }
            let n = ks.len() as int;
            self.lemma_lookup(n);
            assert forall|k: Seq<char>| #[trigger] self.sessions().dom().contains(k)
                <==> before.sessions().insert(key@, value).dom().contains(k) by {
                if k != key@ && self.keys().contains(k) {
                    let j = self.keys().index_of(k);
                    assert(j != n);
                    assert(ks[j] == k);
                }
                if ks.contains(k) {
                    let j = ks.index_of(k);
                    assert(self.keys()[j] == k);
                }
            }
            assert forall|k: Seq<char>| #[trigger] self.sessions().dom().contains(k) && k != key@ implies
                self.sessions()[k] == before.sessions()[k] by {
                let j = self.keys().index_of(k);
                assert(j != n);
                assert(self.entries@[j] == before.entries@[j]);
                self.lemma_lookup(j);
                before.lemma_lookup(j);
            }
            assert(self.sessions() =~= before.sessions().insert(key@, value));
        }
    }
}

/// Every store holds finitely many sessions.
pub proof fn sessions_are_finite<V>(store: SessionStore<V>)
    ensures
        store.sessions().dom().finite(),
{
    broadcast use vstd::seq_lib::seq_to_set_is_finite;
    assert(store.sessions().dom() =~= store.keys().to_set());
}

/// A store written with `insert` (or `open`) under `key` reads back `value` under `key`,
/// keeps every other session as it was, and holds one more session exactly when `key`
/// was new; after `remove`, nothing is stored under the key and one session fewer is held
/// when there was one.
pub proof fn session_read_after_write<V>(before: SessionStore<V>, written: SessionStore<V>, removed: SessionStore<V>, key: Seq<char>, value: V)
    requires
        written.sessions() == before.sessions().insert(key, value),
        removed.sessions() == before.sessions().remove(key),
    ensures
        written.sessions().dom().contains(key),
        written.sessions()[key] == value,
        forall|k: Seq<char>| k != key ==> (#[trigger] written.sessions().dom().contains(k) == before.sessions().dom().contains(k)),
        forall|k: Seq<char>| k != key && before.sessions().dom().contains(k) ==> #[trigger] written.sessions()[k] == before.sessions()[k],
        written.sessions().dom().len() == before.sessions().dom().len() + if before.sessions().dom().contains(key) { 0int } else { 1int },
        !removed.sessions().dom().contains(key),
        removed.sessions().dom().len() == before.sessions().dom().len() - if before.sessions().dom().contains(key) { 1int } else { 0int },
{
    sessions_are_finite(before);
}

} // verus!
