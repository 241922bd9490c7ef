//! A persistent, append-only scoped environment: a binding list shared by the
//! type checker (with `Type` payloads) and the code generator (with generated
//! value payloads).
//!
//! `add` returns a new environment and leaves the original untouched, so a
//! nested scope is entered by extending and left by simply discarding the
//! extension; a still-held parent reference is never perturbed. `lookup`
//! scans from the most recently added entry backward, so re-adding a name
//! shadows the previous binding without removing it.

use vstd::prelude::*;

verus! {

use crate::Dup;
use crate::ident::Ident;

/// A persistent association list from names to `T` payloads.
#[derive(Debug)]
pub struct Env<T>(Vec<(Ident, T)>);

impl<T: View> View for Env<T> {
    type V = Seq<(Seq<char>, T::V)>;

    closed spec fn view(&self) -> Seq<(Seq<char>, T::V)> {
        Seq::new(self.0@.len(), |i: int| (self.0@[i].0@, self.0@[i].1@))
    }
}

/// Lookup in a binding list: the most recently added binding for `n` wins.
pub open spec fn env_lookup<V>(s: Seq<(Seq<char>, V)>, n: Seq<char>) -> Option<V>
    decreases s.len(),
{
    if s.len() == 0 {
        None
    } else if s.last().0 == n {
        Some(s.last().1)
    } else {
        env_lookup(s.drop_last(), n)
    }
}

/// The view of an optional payload.
pub open spec fn opt_view<T: View>(o: Option<T>) -> Option<T::V> {
    match o {
        Some(v) => Some(v@),
        None => None,
    }
}

impl<T: Dup> Env<T> {
    /// The empty environment.
    pub fn new() -> (r: Self)
        ensures
            r@ == Seq::<(Seq<char>, T::V)>::empty(),
    {
        let r = Env(Vec::new());
        proof {
            assert(r@ =~= Seq::<(Seq<char>, T::V)>::empty());
        }
        r
    }

    /// Extends the environment with one binding. The receiver is unchanged
    /// and remains valid: the result is a fresh list.
    pub fn add(&self, name: Ident, v: T) -> (r: Self)
        ensures
            r@ == self@.push((name@, v@)),
    {
        let mut entries: Vec<(Ident, T)> = Vec::new();
        let mut i: usize = 0;
        while i < self.0.len()
            invariant
                i <= self.0.len(),
                entries@.len() == i,
                forall|j: int| #![trigger entries@[j]] 0 <= j < i ==> {
                    &&& entries@[j].0@ == self.0@[j].0@
                    &&& entries@[j].1@ == self.0@[j].1@
                },
            decreases self.0.len() - i,
        {
            let p = &self.0[i];
            entries.push((p.0.dup(), p.1.dup()));
            i = i + 1;
        }
        entries.push((name, v));
        let r = Env(entries);
        proof {
            assert(r@ =~= self@.push((name@, v@)));
        }
        r
    }

    /// Looks `name` up, scanning from the most recent binding backward; the
    /// found payload is handed out as a fresh duplicate.
    pub fn lookup(&self, name: &Ident) -> (r: Option<T>)
        ensures
            opt_view(r) == env_lookup(self@, name@),
    {
        let mut i: usize = self.0.len();
        proof {
            assert(self@.take(i as int) =~= self@);
        }
        while i > 0
            invariant
                i <= self.0.len(),
                env_lookup(self@, name@) == env_lookup(self@.take(i as int), name@),
            decreases i,
        {
            let entry = &self.0[i - 1];
            proof {
                assert(self@.take(i as int).last() == (self.0@[i - 1].0@, self.0@[i - 1].1@));
                assert(self@.take(i as int).drop_last() =~= self@.take(i - 1));
            }
            if entry.0 == *name {
                return Some(entry.1.dup());
            }
            i = i - 1;
        }
        proof {
            assert(self@.take(0) =~= Seq::<(Seq<char>, T::V)>::empty());
        }
        None
    }
}

impl<T: Dup> Dup for Env<T> {
    /// Duplicates the whole binding list, preserving its view.
    fn dup(&self) -> (r: Self)
        ensures
            r@ == self@,
    {
        let mut entries: Vec<(Ident, T)> = Vec::new();
        let mut i: usize = 0;
        while i < self.0.len()
            invariant
                i <= self.0.len(),
                entries@.len() == i,
                forall|j: int| #![trigger entries@[j]] 0 <= j < i ==> {
                    &&& entries@[j].0@ == self.0@[j].0@
                    &&& entries@[j].1@ == self.0@[j].1@
                },
            decreases self.0.len() - i,
        {
            let p = &self.0[i];
            entries.push((p.0.dup(), p.1.dup()));
            i = i + 1;
        }
        let r = Env(entries);
        proof {
            assert(r@ =~= self@);
        }
        r
    }
}

/// Strict lexical scope, shadowing half: after extending an environment with
/// a binding for `n`, looking `n` up finds exactly that binding, whatever was
/// bound before.
pub proof fn lemma_env_shadow<V>(s: Seq<(Seq<char>, V)>, n: Seq<char>, v: V)
    ensures
        env_lookup(s.push((n, v)), n) == Some(v),
{
    assert(s.push((n, v)).last() == (n, v));
}

/// Strict lexical scope, discard half: a binding for one name leaves lookups
/// of every other name exactly as they were, so dropping the extension (the
/// persistent `add` never mutates its receiver) restores the outer scope.
pub proof fn lemma_env_add_other<V>(s: Seq<(Seq<char>, V)>, n: Seq<char>, v: V, m: Seq<char>)
    requires
        m != n,
    ensures
        env_lookup(s.push((n, v)), m) == env_lookup(s, m),
{
    assert(s.push((n, v)).drop_last() =~= s);
}

} // verus!
