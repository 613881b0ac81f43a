//! The variable environment: one flat, dynamically scoped association of
//! names to cell handles. Looking a name up walks the entries in order and
//! the first hit wins; inserting replaces the first entry under that name or
//! appends a new one, so a name occurs at most once.

use vstd::prelude::*;
use crate::err_handle::{Failure, RuntimeFailure};
use crate::frontend::data::Data;

verus! {

/// The first value bound under `k`, if any.
pub open spec fn assoc_lookup<V>(m: Seq<(Seq<char>, V)>, k: Seq<char>) -> Option<V>
    decreases m.len(),
{
    if m.len() == 0 {
        None
    } else if m[0].0 == k {
        Some(m[0].1)
    } else {
        assoc_lookup(m.drop_first(), k)
    }
}

/// `m` with `k` bound to `v`: the first entry under `k` is replaced in
/// place, or a new entry is appended.
pub open spec fn assoc_insert<V>(m: Seq<(Seq<char>, V)>, k: Seq<char>, v: V) -> Seq<(Seq<char>, V)>
    decreases m.len(),
{
    if m.len() == 0 {
        seq![(k, v)]
    } else if m[0].0 == k {
        seq![(k, v)] + m.drop_first()
    } else {
        seq![m[0]] + assoc_insert(m.drop_first(), k, v)
    }
}

/// `m` without its first entry under `k`.
pub open spec fn assoc_remove<V>(m: Seq<(Seq<char>, V)>, k: Seq<char>) -> Seq<(Seq<char>, V)>
    decreases m.len(),
{
    if m.len() == 0 {
        m
    } else if m[0].0 == k {
        m.drop_first()
    } else {
        seq![m[0]] + assoc_remove(m.drop_first(), k)
    }
}

/// Reading a binding straight after writing it yields the written value.
pub broadcast proof fn lemma_assoc_insert_same<V>(m: Seq<(Seq<char>, V)>, k: Seq<char>, v: V)
    ensures
        #[trigger] assoc_lookup(assoc_insert(m, k, v), k) == Some(v),
    decreases m.len(),
{
    if m.len() != 0 && m[0].0 != k {
        lemma_assoc_insert_same(m.drop_first(), k, v);
        assert((seq![m[0]] + assoc_insert(m.drop_first(), k, v)).drop_first() =~= assoc_insert(m.drop_first(), k, v));
    }
}

/// Writing one binding leaves every other name's binding as it was.
pub broadcast proof fn lemma_assoc_insert_other<V>(m: Seq<(Seq<char>, V)>, k: Seq<char>, v: V, k2: Seq<char>)
    requires
        k2 != k,
    ensures
        #[trigger] assoc_lookup(assoc_insert(m, k, v), k2) == assoc_lookup(m, k2),
    decreases m.len(),
{
    if m.len() == 0 {
        assert(seq![(k, v)].drop_first() =~= Seq::<(Seq<char>, V)>::empty());
        assert(assoc_lookup(Seq::<(Seq<char>, V)>::empty(), k2) is None);
        assert(assoc_lookup(assoc_insert(m, k, v), k2) == assoc_lookup(seq![(k, v)].drop_first(), k2));
    } else if m[0].0 == k {
        assert((seq![(k, v)] + m.drop_first()).drop_first() =~= m.drop_first());
    } else {
        lemma_assoc_insert_other(m.drop_first(), k, v, k2);
        assert((seq![m[0]] + assoc_insert(m.drop_first(), k, v)).drop_first() =~= assoc_insert(m.drop_first(), k, v));
    }
}

/// Removing a binding hides exactly that name, and only its first entry.
pub broadcast proof fn lemma_assoc_remove_other<V>(m: Seq<(Seq<char>, V)>, k: Seq<char>, k2: Seq<char>)
    requires
        k2 != k,
    ensures
        #[trigger] assoc_lookup(assoc_remove(m, k), k2) == assoc_lookup(m, k2),
    decreases m.len(),
{
    if m.len() != 0 && m[0].0 != k {
        lemma_assoc_remove_other(m.drop_first(), k, k2);
        assert((seq![m[0]] + assoc_remove(m.drop_first(), k)).drop_first() =~= assoc_remove(m.drop_first(), k));
    }
}

/// The variable environment: name to cell handle, one flat map.
pub struct VariableMap {
    entries: Vec<(String, Data)>,
}

impl View for VariableMap {
    type V = Seq<(Seq<char>, int)>;

    closed spec fn view(&self) -> Seq<(Seq<char>, int)> {
        self.entries@.map(|i: int, e: (String, Data)| (e.0@, e.1@))
    }
}

impl VariableMap {
    /// An environment with no bindings.
    pub fn new() -> (r: Self)
        ensures
            r@ == Seq::<(Seq<char>, int)>::empty(),
    {
        let r = VariableMap { entries: Vec::new() };
        proof {
            assert(r@ =~= Seq::<(Seq<char>, int)>::empty());
        }
        r
    }

    /// The cell bound under `key`; a missing name is a reported failure
    /// carrying the name and the current line, never an implicit default.
    pub fn get(&self, key: &str, line: i32) -> (r: Result<Data, RuntimeFailure>)
        ensures
            match r {
                Ok(d) => assoc_lookup(self@, key@) == Some(d@),
                Err(e) => {
                    &&& assoc_lookup(self@, key@) is None
                    &&& e@ == Failure::VarNotFound(key@, line as int)
                },
            },
    {
        let k = key.to_owned();
        let n = self.entries.len();
        let mut i: usize = 0;
        proof {
            assert(self@.skip(0) =~= self@);
        }
        while i < n
            invariant
                i <= n,
                n == self.entries.len(),
                k@ == key@,
                assoc_lookup(self@, key@) == assoc_lookup(self@.skip(i as int), key@),
            decreases n - i,
        {
            proof {
                assert(self@.skip(i as int)[0] == self@[i as int]);
            }
            if self.entries[i].0.eq(&k) {
                return Ok(self.entries[i].1);
            }
            proof {
                assert(self@.skip(i as int).drop_first() =~= self@.skip(i as int + 1));
            }
            i = i + 1;
        }
        proof {
            assert(self@.skip(n as int) =~= Seq::<(Seq<char>, int)>::empty());
        }
        Err(RuntimeFailure::VarNotFound(key.to_owned(), line))
    }

    /// The cell bound under `key`, looked up for mutation through the cell's
    /// write protocol; the lookup itself is the same as `get`.
    pub fn get_mut(&self, key: &str, line: i32) -> (r: Result<Data, RuntimeFailure>)
        ensures
            match r {
                Ok(d) => assoc_lookup(self@, key@) == Some(d@),
                Err(e) => {
                    &&& assoc_lookup(self@, key@) is None
                    &&& e@ == Failure::VarNotFound(key@, line as int)
                },
            },
    {
        self.get(key, line)
    }

    /// Binds or rebinds `key` to `value`. A prior cell under that name stays
    /// alive for any alias that still holds a handle to it.
    pub fn insert(&mut self, key: String, value: Data)
        ensures
            final(self)@ == assoc_insert(old(self)@, key@, value@),
    {
        let n = self.entries.len();
        let mut i: usize = 0;
        proof {
            assert(old(self)@.skip(0) =~= old(self)@);
            assert(old(self)@.take(0) + assoc_insert(old(self)@.skip(0), key@, value@)
                =~= assoc_insert(old(self)@, key@, value@));
        }
        while i < n
            invariant
                i <= n,
                n == self.entries.len(),
                self@ == old(self)@,
                assoc_insert(old(self)@, key@, value@) == old(self)@.take(i as int) + assoc_insert(old(self)@.skip(i as int), key@, value@),
                forall|j: int| 0 <= j < i ==> old(self)@[j].0 != key@,
            decreases n - i,
        {
            proof {
                assert(self@.skip(i as int)[0] == self@[i as int]);
            }
            if self.entries[i].0.eq(&key) {
                let ghost pre = self@;
                self.entries.set(i, (key, value));
                proof {
                    assert(self@ =~= pre.update(i as int, (pre[i as int].0, value@)));
                    assert(assoc_insert(pre.skip(i as int), pre[i as int].0, value@) =~= seq![(pre[i as int].0, value@)] + pre.skip(i as int).drop_first());
                    assert(self@ =~= pre.take(i as int) + assoc_insert(pre.skip(i as int), pre[i as int].0, value@));
                }
                return;
            }
            proof {
                assert(self@.skip(i as int).drop_first() =~= self@.skip(i as int + 1));
                assert(old(self)@.take(i as int).push(old(self)@[i as int]) =~= old(self)@.take(i as int + 1));
                assert(old(self)@.take(i as int) + assoc_insert(old(self)@.skip(i as int), key@, value@)
                    =~= old(self)@.take(i as int + 1) + assoc_insert(old(self)@.skip(i as int + 1), key@, value@));
            }
            i = i + 1;
        }
        let ghost pre = self@;
        self.entries.push((key, value));
        proof {
            assert(pre.skip(n as int) =~= Seq::<(Seq<char>, int)>::empty());
            assert(self@ =~= pre.push((key@, value@)));
            assert(self@ =~= pre.take(n as int) + assoc_insert(pre.skip(n as int), key@, value@));
        }
    }

    /// Drops the binding under `key`, if any. Other aliases of the same cell
    /// are unaffected.
    pub fn remove(&mut self, key: &str)
        ensures
            final(self)@ == assoc_remove(old(self)@, key@),
    {
        let k = key.to_owned();
        let n = self.entries.len();
        let mut i: usize = 0;
        proof {
            assert(old(self)@.skip(0) =~= old(self)@);
            assert(old(self)@.take(0) + assoc_remove(old(self)@.skip(0), key@)
                =~= assoc_remove(old(self)@, key@));
        }
        while i < n
            invariant
                i <= n,
                n == self.entries.len(),
                self@ == old(self)@,
                k@ == key@,
                assoc_remove(old(self)@, key@) == old(self)@.take(i as int) + assoc_remove(old(self)@.skip(i as int), key@),
            decreases n - i,
        {
            proof {
                assert(self@.skip(i as int)[0] == self@[i as int]);
            }
            if self.entries[i].0.eq(&k) {
                let ghost pre = self@;
                self.entries.remove(i);
                proof {
                    assert(self@ =~= pre.take(i as int) + pre.skip(i as int + 1));
                    assert(pre.skip(i as int).drop_first() =~= pre.skip(i as int + 1));
                    assert(self@ =~= pre.take(i as int) + assoc_remove(pre.skip(i as int), key@));
                }
                return;
            }
            proof {
                assert(self@.skip(i as int).drop_first() =~= self@.skip(i as int + 1));
                assert(old(self)@.take(i as int).push(old(self)@[i as int]) =~= old(self)@.take(i as int + 1));
                assert(old(self)@.take(i as int) + assoc_remove(old(self)@.skip(i as int), key@)
                    =~= old(self)@.take(i as int + 1) + assoc_remove(old(self)@.skip(i as int + 1), key@));
            }
            i = i + 1;
        }
        proof {
            assert(old(self)@.skip(n as int) =~= Seq::<(Seq<char>, int)>::empty());
            assert(assoc_remove(old(self)@, key@) =~= self@);
        }
    }
}

} // verus!
