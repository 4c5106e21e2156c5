use super::SessionId;
use vstd::prelude::*;

verus! {

/// Where `id` first stands among `keys`, if it stands there at all.
pub open spec fn position_of(keys: Seq<Seq<char>>, id: Seq<char>) -> Option<int>
    decreases keys.len(),
{
    if keys.len() == 0 {
        None
    } else if keys[0] == id {
        Some(0)
    } else {
        match position_of(keys.drop_first(), id) {
            Some(i) => Some(i + 1),
            None => None,
        }
    }
}

/// The keys of the pairs of `m`, in order.
pub open spec fn keys_of<A>(m: Seq<(Seq<char>, A)>) -> Seq<Seq<char>> {
    m.map_values(|e: (Seq<char>, A)| e.0)
}

/// The value that `m` holds for `id`.
pub open spec fn lookup<A>(m: Seq<(Seq<char>, A)>, id: Seq<char>) -> Option<A> {
    match position_of(keys_of(m), id) {
        Some(i) => Some(m[i].1),
        None => None,
    }
}

/// `m` after `value` is stored for `id`: in the place of the value that `m`
/// held for `id`, or at the end where it held none.
pub open spec fn inserted<A>(m: Seq<(Seq<char>, A)>, id: Seq<char>, value: A) -> Seq<
    (Seq<char>, A),
> {
    match position_of(keys_of(m), id) {
        Some(i) => m.update(i, (id, value)),
        None => m.push((id, value)),
    }
}

/// A position that `position_of` gives is the first at which the key stands;
/// it gives none exactly where the key is absent.
pub proof fn lemma_position_of(keys: Seq<Seq<char>>, id: Seq<char>)
    ensures
        match position_of(keys, id) {
            Some(i) => 0 <= i < keys.len() && keys[i] == id && forall|j: int|
                0 <= j < i ==> keys[j] != id,
            None => !keys.contains(id),
        },
    decreases keys.len(),
{
    if keys.len() > 0 && keys[0] != id {
        let tail = keys.drop_first();
        lemma_position_of(tail, id);
        match position_of(tail, id) {
            Some(i) => {
                assert(keys[i + 1] == tail[i]);
                assert forall|j: int| 0 <= j < i + 1 implies keys[j] != id by {
                    if j > 0 {
                        assert(keys[j] == tail[j - 1]);
                    }
                }
            },
            None => {
                assert forall|j: int| 0 <= j < keys.len() implies keys[j] != id by {
                    if j > 0 {
                        assert(keys[j] == tail[j - 1]);
                    }
                }
            },
        }
    }
}

/// Storing a value keeps the keys distinct, and afterwards the value is found
/// under its key, and every other key finds what it found before.
pub proof fn lemma_inserted<A>(m: Seq<(Seq<char>, A)>, id: Seq<char>, value: A)
    requires
        keys_of(m).no_duplicates(),
    ensures
        keys_of(inserted(m, id, value)).no_duplicates(),
        lookup(inserted(m, id, value), id) == Some(value),
        forall|other: Seq<char>| other != id ==> lookup(inserted(m, id, value), other) == lookup(m, other),
{
    let keys = keys_of(m);
    let after = inserted(m, id, value);
    lemma_position_of(keys, id);
    match position_of(keys, id) {
        Some(i) => {
            assert(keys_of(after) =~= keys);
        },
        None => {
            assert(keys_of(after) =~= keys.push(id));
        },
    }
    lemma_position_of(keys_of(after), id);
    match position_of(keys, id) {
        Some(i) => {
            assert(after[i].1 == value);
        },
        None => {
            assert(keys_of(after)[keys.len() as int] == id);
            assert(keys_of(after).contains(id));
            let k = position_of(keys_of(after), id)->0;
            if k < keys.len() {
                assert(keys[k] == id);
                assert(keys.contains(id));
            }
            assert(after[keys.len() as int].1 == value);
        },
    }
    assert forall|other: Seq<char>| other != id implies lookup(after, other) == lookup(
        m,
        other,
    ) by {
        lemma_position_of(keys, other);
        lemma_position_of(keys_of(after), other);
        match position_of(keys, other) {
            Some(j) => {
                assert(keys_of(after)[j] == other);
            },
            None => {
                if keys_of(after).contains(other) {
                    let j = choose|j: int| 0 <= j < keys_of(after).len() && keys_of(after)[j] == other;
                    assert(keys[j] == other);
                }
            },
        }
    }
}

/// Values stored by session id, each id at most once, in the order in which
/// the ids were first stored.
#[derive(Debug, PartialEq, Eq)]
pub struct SessionMap<V> {
    entries: Vec<(SessionId, V)>,
}

impl<V: View> View for SessionMap<V> {
    type V = Seq<(Seq<char>, V::V)>;

    closed spec fn view(&self) -> Seq<(Seq<char>, V::V)> {
        self.entries@.map_values(|e: (SessionId, V)| (e.0@, e.1@))
    }
}

impl<V: View> SessionMap<V> {
    /// The session ids, in order.
    pub open spec fn keys(&self) -> Seq<Seq<char>> {
        keys_of(self@)
    }

    /// No session id is stored twice.
    pub open spec fn wf(&self) -> bool {
        self.keys().no_duplicates()
    }

    /// A map that holds nothing.
    pub fn new() -> (r: Self)
        ensures
            r@ == Seq::<(Seq<char>, V::V)>::empty(),
            r.wf(),
    {
        let r = SessionMap { entries: Vec::new() };
        assert(r@ =~= Seq::<(Seq<char>, V::V)>::empty());
        r
    }

    /// The number of session ids stored.
    pub fn len(&self) -> (r: usize)
        ensures
            r == self@.len(),
    {
        self.entries.len()
    }

    /// Whether nothing is stored.
    pub fn is_empty(&self) -> (r: bool)
        ensures
            r == (self@.len() == 0),
    {
        self.entries.len() == 0
    }

    /// The session id at position `i`.
    pub fn key_at(&self, i: usize) -> (r: &SessionId)
        requires
            i < self@.len(),
        ensures
            r@ == self@[i as int].0,
    {
        &self.entries[i].0
    }

    /// The value at position `i`.
    pub fn value_at(&self, i: usize) -> (r: &V)
        requires
            i < self@.len(),
        ensures
            r@ == self@[i as int].1,
    {
        &self.entries[i].1
    }

    /// The position at which `id` is stored.
    pub fn position(&self, id: &SessionId) -> (r: Option<usize>)
        ensures
            match r {
                Some(i) => position_of(self.keys(), id@) == Some(i as int) && i < self@.len(),
                None => position_of(self.keys(), id@) is None,
            },
    {
        let ghost keys = self.keys();
        let mut i: usize = 0;
        proof {
            assert(keys.subrange(0, keys.len() as int) =~= keys);
        }
        while i < self.entries.len()
            invariant
                i <= self.entries@.len(),
                keys == self.keys(),
                keys.len() == self.entries@.len(),
                match position_of(keys.subrange(i as int, keys.len() as int), id@) {
                    Some(j) => position_of(keys, id@) == Some(i + j),
                    None => position_of(keys, id@) is None,
                },
            decreases self.entries@.len() - i,
        {
            let ghost tail = keys.subrange(i as int, keys.len() as int);
            assert(tail[0] == self.entries@[i as int].0@);
            if self.entries[i].0.same(id) {
                return Some(i);
            }
            proof {
                assert(tail.drop_first() =~= keys.subrange(i + 1, keys.len() as int));
            }
            i = i + 1;
        }
        None
    }

    /// Whether a value is stored for `id`.
    pub fn contains_key(&self, id: &SessionId) -> (r: bool)
        ensures
            r == self.keys().contains(id@),
            r == (lookup(self@, id@) is Some),
    {
        proof {
            lemma_position_of(self.keys(), id@);
        }
        self.position(id).is_some()
    }

    /// The value stored for `id`.
    pub fn get(&self, id: &SessionId) -> (r: Option<&V>)
        ensures
            match r {
                Some(v) => lookup(self@, id@) == Some(v@),
                None => lookup(self@, id@) is None,
            },
    {
        match self.position(id) {
            Some(i) => Some(&self.entries[i].1),
            None => None,
        }
    }

    /// Stores `value` for `id`. A value stored for `id` before is replaced and
    /// keeps its position; a new id goes to the end.
    pub fn insert(&mut self, id: SessionId, value: V)
        ensures
            final(self)@ == inserted(old(self)@, id@, value@),
            old(self).wf() ==> final(self).wf(),
    {
        proof {
            if self.wf() {
                lemma_inserted(self@, id@, value@);
            }
        }
        match self.position(&id) {
            Some(i) => {
                self.entries.set(i, (id, value));
                assert(self@ =~= inserted(old(self)@, id@, value@));
            },
            None => {
                self.entries.push((id, value));
                assert(self@ =~= inserted(old(self)@, id@, value@));
            },
        }
    }
}

} // verus!
