//! A map from task tokens to values.
use crate::task_token::TaskToken;
use vstd::prelude::*;

verus! {

/// A map keyed by task tokens, held as a list of entries in which no token occurs twice.
pub struct TokenMap<V> {
    entries: Vec<(TaskToken, V)>,
}

/// `key` stands at position `i` of `entries`.
spec fn position<V>(entries: Seq<(TaskToken, V)>, key: Seq<u8>, i: int) -> bool {
    0 <= i < entries.len() && entries[i].0@ == key
}

/// No token occurs twice.
spec fn no_duplicates<V>(entries: Seq<(TaskToken, V)>) -> bool {
    forall|i: int, j: int|
        #![trigger entries[i], entries[j]]
        0 <= i < j < entries.len() ==> entries[i].0@ != entries[j].0@
}

/// The entries as a mathematical map.
spec fn as_map<V>(entries: Seq<(TaskToken, V)>) -> Map<Seq<u8>, V> {
    Map::new(
        |key: Seq<u8>| exists|i: int| position(entries, key, i),
        |key: Seq<u8>| entries[choose|i: int| position(entries, key, i)].1,
    )
}

/// Each entry is found under its token.
proof fn lemma_entry<V>(entries: Seq<(TaskToken, V)>, i: int)
    requires
        no_duplicates(entries),
        0 <= i < entries.len(),
    ensures
        as_map(entries).contains_key(entries[i].0@),
        as_map(entries)[entries[i].0@] == entries[i].1,
{
    let key = entries[i].0@;
    assert(position(entries, key, i));
    let j = choose|j: int| position(entries, key, j);
    assert(entries[i].0@ == entries[j].0@);
}

impl<V> TokenMap<V> {
    /// No token occurs in two entries.
    pub closed spec fn wf(&self) -> bool {
        no_duplicates(self.entries@)
    }

    /// The map that the entries stand for.
    pub closed spec fn view(&self) -> Map<Seq<u8>, V> {
        as_map(self.entries@)
    }

    /// The empty map.
    pub fn new() -> (r: Self)
        ensures
            r.wf(),
            r@ == Map::<Seq<u8>, V>::empty(),
    {
        let r = TokenMap { entries: Vec::new() };
        assert(r@ =~= Map::<Seq<u8>, V>::empty());
        r
    }

    /// Where `key` stands, if it occurs.
    fn index_of(&self, key: &TaskToken) -> (r: Option<usize>)
        ensures
            match r {
                Some(i) => position(self.entries@, key@, i as int),
                None => forall|i: int| !position(self.entries@, key@, i),
            },
    {
        let mut i: usize = 0;
        while i < self.entries.len()
            invariant
                i <= self.entries.len(),
                forall|j: int| j < i ==> !position(self.entries@, key@, j),
            decreases self.entries.len() - i,
        {
            if self.entries[i].0.same_as(key) {
                return Some(i);
            }
            i = i + 1;
        }
        None
    }

    /// Whether the map holds a value for `key`.
    pub fn contains(&self, key: &TaskToken) -> (r: bool)
        ensures
            r == self@.contains_key(key@),
    {
        let found = self.index_of(key);
        assert(found matches Some(i) ==> position(self.entries@, key@, i as int));
        found.is_some()
    }

    /// Takes the value for `key` out of the map.
    pub fn remove(&mut self, key: &TaskToken) -> (r: Option<V>)
        requires
            old(self).wf(),
        ensures
            final(self).wf(),
            final(self)@ == old(self)@.remove(key@),
            r == (if old(self)@.contains_key(key@) {
                Some(old(self)@[key@])
            } else {
                None
            }),
    {
        let ghost before = self.entries@;
        match self.index_of(key) {
            Some(i) => {
                let (_token, value) = self.entries.swap_remove(i);
                proof {
                    let after = self.entries@;
                    lemma_entry(before, i as int);
                    assert forall|k: Seq<u8>| #[trigger] as_map(after).contains_key(k) implies {
                        &&& as_map(before).remove(key@).contains_key(k)
                        &&& as_map(before)[k] == as_map(after)[k]
                    } by {
                        let j = choose|j: int| position(after, k, j);
                        lemma_entry(after, j);
                        let j0 = if j == i { before.len() - 1 } else { j };
                        assert(after[j] == before[j0]);
                        lemma_entry(before, j0);
                        assert(before[j0].0@ != before[i as int].0@);
                    }
                    assert forall|k: Seq<u8>| #[trigger]
                        as_map(before).remove(key@).contains_key(k) implies as_map(
                        after,
                    ).contains_key(k) by {
                        let j0 = choose|j: int| position(before, k, j);
                        let j = if j0 == before.len() - 1 { i as int } else { j0 };
                        assert(after[j] == before[j0]);
                        assert(position(after, k, j));
                    }
                    assert(as_map(after) =~= as_map(before).remove(key@));
                }
                Some(value)
            },
            None => {
                assert(self@ =~= self@.remove(key@));
                None
            },
        }
    }

    /// Binds `key` to `value`, in place of any value that it had.
    pub fn insert(&mut self, key: TaskToken, value: V)
        requires
            old(self).wf(),
        ensures
            final(self).wf(),
            final(self)@ == old(self)@.insert(key@, value),
    {
        let _previous = self.remove(&key);
        let ghost before = self.entries@;
        let ghost pair = (key, value);
        proof {
            assert(!as_map(before).contains_key(key@));
            assert forall|i: int| 0 <= i < before.len() implies before[i].0@ != key@ by {
                lemma_entry(before, i);
            }
        }
        self.entries.push((key, value));
        proof {
            let after = self.entries@;
            assert(after =~= before.push(pair));
            lemma_entry(after, before.len() as int);
            assert forall|k: Seq<u8>| #[trigger] as_map(after).contains_key(k) implies {
                &&& as_map(before).insert(key@, value).contains_key(k)
                &&& as_map(before).insert(key@, value)[k] == as_map(after)[k]
            } by {
                let j = choose|j: int| position(after, k, j);
                lemma_entry(after, j);
                if j < before.len() {
                    lemma_entry(before, j);
                }
            }
            assert forall|k: Seq<u8>| as_map(before).contains_key(k) implies #[trigger] as_map(
                after,
            ).contains_key(k) by {
                let j = choose|j: int| position(before, k, j);
                assert(position(after, k, j));
            }
            assert(as_map(after) =~= as_map(before).insert(key@, value));
        }
    }
}

} // verus!
