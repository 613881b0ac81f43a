//! The function registry: a mapping from names to definitions with single
//! registration — the first registration of a name wins and a second one is
//! rejected outright.

use vstd::prelude::*;
use crate::err_handle::{Failure, RuntimeFailure};
use crate::frontend::function::{FunctionKind, InternalFunctionTypes, OneStrFn, rc_body_clone};
use crate::frontend::variable_map::{assoc_lookup, assoc_insert};

verus! {

/// The registry of callable definitions.
pub struct FunctionMap {
    entries: Vec<(String, FunctionKind)>,
}

impl View for FunctionMap {
    type V = Seq<(Seq<char>, FunctionKind)>;

    closed spec fn view(&self) -> Seq<(Seq<char>, FunctionKind)> {
        self.entries@.map(|i: int, e: (String, FunctionKind)| (e.0@, e.1))
    }
}

impl FunctionMap {
    /// A registry with nothing registered.
    pub fn new() -> (r: Self)
        ensures
            r@ == Seq::<(Seq<char>, FunctionKind)>::empty(),
    {
        let r = FunctionMap { entries: Vec::new() };
        proof {
            assert(r@ =~= Seq::<(Seq<char>, FunctionKind)>::empty());
        }
        r
    }

    /// The definition registered under `key`, as an owned handle (a shared
    /// user-defined body, or the native operation).
    pub fn get(&self, key: &str) -> (r: Option<FunctionKind>)
        ensures
            match r {
                Some(f) => assoc_lookup(self@, key@) == Some(f),
                None => assoc_lookup(self@, key@) is None,
            },
    {
        let k = key.to_owned();
        let n = self.entries.len();
        let mut i: usize = 0;
        proof {
            assert(self@.skip(0) =~= self@);
        }
        while i < n
            invariant
                i <= n,
                n == self.entries.len(),
                k@ == key@,
                assoc_lookup(self@, key@) == assoc_lookup(self@.skip(i as int), key@),
            decreases n - i,
        {
            proof {
                assert(self@.skip(i as int)[0] == self@[i as int]);
            }
            if self.entries[i].0.eq(&k) {
                let copy = match &self.entries[i].1 {
                    FunctionKind::External(rc) => FunctionKind::External(rc_body_clone(rc)),
                    FunctionKind::Internal(InternalFunctionTypes::TakesOneStr(f)) => FunctionKind::Internal(InternalFunctionTypes::TakesOneStr(*f)),
                };
                return Some(copy);
            }
            proof {
                assert(self@.skip(i as int).drop_first() =~= self@.skip(i as int + 1));
            }
            i = i + 1;
        }
        proof {
            assert(self@.skip(n as int) =~= Seq::<(Seq<char>, FunctionKind)>::empty());
        }
        None
    }

    /// Registers `function` under `name`. The first registration wins: if
    /// the name is already taken the registry is unchanged and the call
    /// fails with `DuplicateFunction` naming it.
    pub fn register_function(&mut self, name: String, function: FunctionKind) -> (r: Result<(), RuntimeFailure>)
        ensures
            match r {
                Ok(()) => {
                    &&& assoc_lookup(old(self)@, name@) is None
                    &&& final(self)@ == assoc_insert(old(self)@, name@, function)
                },
                Err(e) => {
                    &&& assoc_lookup(old(self)@, name@) is Some
                    &&& final(self)@ == old(self)@
                    &&& e@ == Failure::DuplicateFunction(name@)
                },
            },
    {
        let taken = { self.get(name.as_str()).is_some() };
        if taken {
            Err(RuntimeFailure::DuplicateFunction(name))
        } else {
            let n = self.entries.len();
            let ghost pre = self@;
            self.entries.push((name, function));
            proof {
                lemma_absent_insert_is_push(pre, name@, function);
                assert(self@ =~= pre.push((name@, function)));
            }
            Ok(())
        }
    }
}

/// Inserting a name that is absent appends the new entry.
proof fn lemma_absent_insert_is_push(m: Seq<(Seq<char>, FunctionKind)>, k: Seq<char>, v: FunctionKind)
    requires
        assoc_lookup(m, k) is None,
    ensures
        assoc_insert(m, k, v) == m.push((k, v)),
    decreases m.len(),
{
    if m.len() == 0 {
        assert(assoc_insert(m, k, v) =~= m.push((k, v)));
    } else {
        lemma_absent_insert_is_push(m.drop_first(), k, v);
        assert(assoc_insert(m, k, v) =~= m.push((k, v)));
    }
}

} // verus!
