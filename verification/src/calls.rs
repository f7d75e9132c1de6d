//! The unit names that wait, per module, to be called from that module's
//! batched test.
use std::collections::HashMap;
use vstd::prelude::*;
use vstd::std_specs::hash::*;
use crate::text::texts;

verus! {

broadcast use vstd::std_specs::hash::group_hash_axioms;

/// Pending unit names by module index, each list in the order of registration.
pub struct ModuleCalls {
    calls: HashMap<u64, Vec<String>>,
}

impl ModuleCalls {
    /// The names pending for every module index; the empty list where none is.
    pub closed spec fn pending(&self) -> Map<u64, Seq<Seq<char>>> {
        Map::total(
            |module: u64|
                if self.calls@.contains_key(module) {
                    texts(self.calls@[module]@)
                } else {
                    Seq::empty()
                },
        )
    }

    /// An aggregator with nothing pending.
    pub fn new() -> (r: Self)
        ensures
            r.pending() == nothing_pending(),
    {
        let r = ModuleCalls { calls: HashMap::new() };
        assert(r.pending() =~= nothing_pending());
        r
    }

    /// Appends `name` to the names pending for `module`.
    pub fn register(&mut self, module: u64, name: String)
        ensures
            final(self).pending() == registered(old(self).pending(), module, name@),
    {
        let mut names: Vec<String> = match self.calls.remove(&module) {
            Some(names) => names,
            None => Vec::new(),
        };
        let ghost before = names@;
        assert(texts(before) =~= old(self).pending()[module]);
        assert(self.calls@ == old(self).calls@.remove(module));
        names.push(name);
        assert(texts(names@) =~= texts(before).push(name@));
        self.calls.insert(module, names);
        assert forall|other: u64| #[trigger]
            self.pending()[other] == registered(old(self).pending(), module, name@)[other] by {
            if other != module {
                assert(self.calls@.contains_key(other) == old(self).calls@.contains_key(other));
            }
        }
        assert(self.pending() =~= registered(old(self).pending(), module, name@));
    }

    /// Hands out the names pending for `module`, in the order of
    /// registration, and leaves none pending for it.
    pub fn take(&mut self, module: u64) -> (names: Vec<String>)
        ensures
            texts(names@) == old(self).pending()[module],
            final(self).pending() == cleared(old(self).pending(), module),
    {
        let names: Vec<String> = match self.calls.remove(&module) {
            Some(names) => names,
            None => Vec::new(),
        };
        assert(texts(names@) =~= old(self).pending()[module]);
        assert(self.pending() =~= cleared(old(self).pending(), module));
        names
    }
}

/// No name pending for any module.
pub open spec fn nothing_pending() -> Map<u64, Seq<Seq<char>>> {
    Map::total(|module: u64| Seq::<Seq<char>>::empty())
}

/// The pending names after `name` was registered for `module`.
pub open spec fn registered(
    pending: Map<u64, Seq<Seq<char>>>,
    module: u64,
    name: Seq<char>,
) -> Map<u64, Seq<Seq<char>>> {
    pending.insert(module, pending[module].push(name))
}

/// The pending names after those of `module` were handed out.
pub open spec fn cleared(pending: Map<u64, Seq<Seq<char>>>, module: u64) -> Map<
    u64,
    Seq<Seq<char>>,
> {
    pending.insert(module, Seq::empty())
}

} // verus!
