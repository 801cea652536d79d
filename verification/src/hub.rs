//! The hub: owner of every console context and of the registry of
//! share-names under which a context can be published for another session.
//!
//! Contexts live in an arena and are designated by their index; sharing a
//! context is publishing its index under a name, and removing a name never
//! touches the context itself. Names are unique keys; insertion without
//! overwrite fails on a taken name, insertion with overwrite displaces any
//! prior entry.

use vstd::prelude::*;
use vstd::string::StringExecFns;

use crate::console::{init_console_state, ConsoleContext, ConsoleState};

verus! {

/// The abstract state of the hub: the contexts by index, the registry as a
/// map from name to index, and the process-wide exit flag.
pub ghost struct HubState {
    pub ctxs: Seq<ConsoleContext>,
    pub shared: Map<Seq<char>, usize>,
    pub exit: bool,
}

/// Every registered name designates a context of the arena.
pub open spec fn hub_valid(h: HubState) -> bool {
    forall|n: Seq<char>| #[trigger] h.shared.contains_key(n) ==> h.shared[n] < h.ctxs.len()
}

/// `h1` is `h0` with the context at `id` stepped to `c1`: the registry, the
/// exit flag and every other context are untouched.
pub open spec fn hub_ctx_step(h0: HubState, h1: HubState, id: int, c1: ConsoleState) -> bool {
    &&& h1.shared == h0.shared
    &&& h1.exit == h0.exit
    &&& h1.ctxs.len() == h0.ctxs.len()
    &&& h1.ctxs[id]@ == c1
    &&& forall|i: int| 0 <= i < h0.ctxs.len() && i != id ==> h1.ctxs[i] == h0.ctxs[i]
}

/// No two registry entries carry the same name.
spec fn names_unique(entries: Seq<(String, usize)>) -> bool {
    forall|i: int, j: int| 0 <= i < j < entries.len() ==> entries[i].0@ != entries[j].0@
}

/// The mapping an entry list denotes: later entries shadow earlier ones,
/// though with unique names nothing is ever shadowed.
spec fn assoc_map(entries: Seq<(String, usize)>) -> Map<Seq<char>, usize>
    decreases entries.len(),
{
    if entries.len() == 0 {
        Map::empty()
    } else {
        assoc_map(entries.drop_last()).insert(entries.last().0@, entries.last().1)
    }
}

proof fn lemma_assoc_contains(entries: Seq<(String, usize)>, name: Seq<char>)
    ensures
        assoc_map(entries).contains_key(name) <==> (exists|i: int|
            0 <= i < entries.len() && entries[i].0@ == name),
    decreases entries.len(),
{
    if entries.len() > 0 {
        let pre = entries.drop_last();
        lemma_assoc_contains(pre, name);
        if entries.last().0@ == name {
            assert(entries[entries.len() - 1].0@ == name);
        } else {
            if assoc_map(entries).contains_key(name) {
                let i = choose|i: int| 0 <= i < pre.len() && pre[i].0@ == name;
                assert(entries[i].0@ == name);
            }
            if exists|i: int| 0 <= i < entries.len() && entries[i].0@ == name {
                let i = choose|i: int| 0 <= i < entries.len() && entries[i].0@ == name;
                assert(i < entries.len() - 1);
                assert(pre[i].0@ == name);
            }
        }
    }
}

proof fn lemma_assoc_index(entries: Seq<(String, usize)>, i: int)
    requires
        names_unique(entries),
        0 <= i < entries.len(),
    ensures
        assoc_map(entries).contains_key(entries[i].0@),
        assoc_map(entries)[entries[i].0@] == entries[i].1,
    decreases entries.len(),
{
    if i < entries.len() - 1 {
        let pre = entries.drop_last();
        assert(names_unique(pre));
        lemma_assoc_index(pre, i);
        assert(entries[i].0@ != entries.last().0@);
    }
}

proof fn lemma_assoc_push(entries: Seq<(String, usize)>, e: (String, usize))
    ensures
        assoc_map(entries.push(e)) == assoc_map(entries).insert(e.0@, e.1),
{
    assert(entries.push(e).drop_last() =~= entries);
    assert(entries.push(e).last() == e);
}

proof fn lemma_assoc_remove(entries: Seq<(String, usize)>, i: int)
    requires
        names_unique(entries),
        0 <= i < entries.len(),
    ensures
        assoc_map(entries.remove(i)) =~= assoc_map(entries).remove(entries[i].0@),
    decreases entries.len(),
{
    let pre = entries.drop_last();
    assert(names_unique(pre));
    if i == entries.len() - 1 {
        assert(entries.remove(i) =~= pre);
        lemma_assoc_contains(pre, entries[i].0@);
        assert(!assoc_map(pre).contains_key(entries[i].0@));
        assert(assoc_map(pre) =~= assoc_map(pre).insert(entries[i].0@, entries[i].1).remove(
            entries[i].0@,
        ));
    } else {
        lemma_assoc_remove(pre, i);
        assert(entries.remove(i).drop_last() =~= pre.remove(i));
        assert(entries.remove(i).last() == entries.last());
        assert(entries[i].0@ != entries.last().0@);
        assert(assoc_map(pre.remove(i)).insert(entries.last().0@, entries.last().1)
            =~= assoc_map(pre).insert(entries.last().0@, entries.last().1).remove(entries[i].0@));
    }
}

proof fn lemma_entries_valid(entries: Seq<(String, usize)>, h: HubState)
    requires
        h.shared == assoc_map(entries),
        forall|i: int| 0 <= i < entries.len() ==> (#[trigger] entries[i]).1 < h.ctxs.len(),
        names_unique(entries),
    ensures
        hub_valid(h),
{
    assert forall|n: Seq<char>| #[trigger] h.shared.contains_key(n) implies h.shared[n]
        < h.ctxs.len() by {
        lemma_assoc_contains(entries, n);
        let i = choose|i: int| 0 <= i < entries.len() && entries[i].0@ == n;
        lemma_assoc_index(entries, i);
    }
}

/// The registry of named contexts and the arena that owns every context.
pub struct Hub {
    ctxs: Vec<ConsoleContext>,
    shared: Vec<(String, usize)>,
    exit_flag: bool,
}

impl View for Hub {
    type V = HubState;

    closed spec fn view(&self) -> HubState {
        HubState { ctxs: self.ctxs@, shared: assoc_map(self.shared@), exit: self.exit_flag }
    }
}

impl Hub {
    /// Registry names are unique, every registered index designates a
    /// context, and every context's published request carries the tag its
    /// wait was stamped with.
    pub closed spec fn wf(&self) -> bool {
        &&& names_unique(self.shared@)
        &&& forall|i: int|
            0 <= i < self.shared@.len() ==> (#[trigger] self.shared@[i]).1 < self.ctxs@.len()
        &&& forall|i: int| 0 <= i < self.ctxs@.len() ==> (#[trigger] self.ctxs@[i])@.wf()
    }

    /// An empty hub: no contexts, no names, no exit.
    pub fn new() -> (r: Hub)
        ensures
            r.wf(),
            r@.ctxs == Seq::<ConsoleContext>::empty(),
            r@.shared == Map::<Seq<char>, usize>::empty(),
            !r@.exit,
    {
        Hub { ctxs: Vec::new(), shared: Vec::new(), exit_flag: false }
    }

    /// Whether every connector must stop.
    pub fn need_exit(&self) -> (r: bool)
        ensures
            r == self@.exit,
    {
        self.exit_flag
    }

    /// Raises the process-wide exit flag.
    pub fn set_exit(&mut self)
        ensures
            final(self)@ == (HubState { exit: true, ..old(self)@ }),
            old(self).wf() ==> final(self).wf(),
    {
        self.exit_flag = true;
    }

    /// Creates a fresh context in the arena and returns its index. The
    /// caller starts the program that will append to it.
    pub fn new_context(&mut self) -> (id: usize)
        ensures
            id == old(self)@.ctxs.len(),
            final(self)@.ctxs == old(self)@.ctxs.push(final(self)@.ctxs[id as int]),
            final(self)@.ctxs[id as int]@ == init_console_state(),
            final(self)@.shared == old(self)@.shared,
            final(self)@.exit == old(self)@.exit,
            old(self).wf() ==> final(self).wf(),
    {
        let id = self.ctxs.len();
        self.ctxs.push(ConsoleContext::new());
        id
    }

    /// The number of contexts in the arena.
    pub fn context_count(&self) -> (r: usize)
        ensures
            r == self@.ctxs.len(),
    {
        self.ctxs.len()
    }

    /// Read access to the context at `id`.
    pub fn context_ref(&self, id: usize) -> (r: &ConsoleContext)
        requires
            id < self@.ctxs.len(),
        ensures
            *r == self@.ctxs[id as int],
            self.wf() ==> (*r)@.wf(),
    {
        &self.ctxs[id]
    }

    /// Write access to the context at `id`; everything else is untouched.
    pub fn context_mut(&mut self, id: usize) -> (r: &mut ConsoleContext)
        requires
            id < old(self)@.ctxs.len(),
        ensures
            *r == old(self)@.ctxs[id as int],
            old(self).wf() ==> (*r)@.wf(),
            final(self)@.ctxs == old(self)@.ctxs.update(id as int, *final(r)),
            final(self)@.shared == old(self)@.shared,
            final(self)@.exit == old(self)@.exit,
            old(self).wf() && final(r)@.wf() ==> final(self).wf(),
    {
        &mut self.ctxs[id]
    }

    /// The index of the registry entry holding `key`, if any.
    fn find_entry(&self, key: &String) -> (r: Option<usize>)
        ensures
            match r {
                Some(i) => i < self.shared@.len() && self.shared@[i as int].0@ == key@,
                None => forall|i: int| 0 <= i < self.shared@.len() ==> self.shared@[i].0@ != key@,
            },
    {
        let mut i: usize = 0;
        while i < self.shared.len()
            invariant
                i <= self.shared@.len(),
                forall|j: int| 0 <= j < i ==> self.shared@[j].0@ != key@,
            decreases self.shared@.len() - i,
        {
            let e = &self.shared[i];
            if e.0.eq(key) {
                return Some(i);
            }
            i = i + 1;
        }
        None
    }

    /// Publishes the context at index `ctx` under `key`. With `overwrite`
    /// the insertion always succeeds and displaces any prior entry; without
    /// it, the insertion fails exactly when the name is taken.
    pub fn insert_ctx(&mut self, key: String, ctx: usize, overwrite: bool) -> (r: bool)
        requires
            old(self).wf(),
            ctx < old(self)@.ctxs.len(),
        ensures
            final(self).wf(),
            hub_valid(final(self)@),
            final(self)@.ctxs == old(self)@.ctxs,
            final(self)@.exit == old(self)@.exit,
            r == (overwrite || !old(self)@.shared.contains_key(key@)),
            r ==> final(self)@.shared == old(self)@.shared.insert(key@, ctx),
            !r ==> final(self)@.shared == old(self)@.shared,
    {
        proof {
            lemma_assoc_contains(self.shared@, key@);
        }
        let found = self.find_entry(&key);
        match found {
            Some(i) => {
                if !overwrite {
                    proof {
                        lemma_assoc_index(self.shared@, i as int);
                        lemma_entries_valid(self.shared@, self@);
                    }
                    return false;
                }
                let ghost entries0 = self.shared@;
                proof {
                    lemma_assoc_remove(entries0, i as int);
                }
                self.shared.remove(i);
                let ghost entries1 = self.shared@;
                proof {
                    lemma_assoc_push(entries1, (key, ctx));
                    assert(assoc_map(entries1).insert(key@, ctx) =~= assoc_map(entries0).insert(
                        key@,
                        ctx,
                    ));
                    assert forall|a: int, b: int|
                        0 <= a < b < entries1.push((key, ctx)).len() implies entries1.push(
                        (key, ctx),
                    )[a].0@ != entries1.push((key, ctx))[b].0@ by {
                        if b < entries1.len() {
                            assert(entries1[a].0@ != entries1[b].0@);
                        } else {
                            assert(entries1[a] == entries0.remove(i as int)[a]);
                        }
                    }
                }
                self.shared.push((key, ctx));
                proof {
                    lemma_entries_valid(self.shared@, self@);
                }
                true
            },
            None => {
                let ghost entries1 = self.shared@;
                proof {
                    lemma_assoc_push(entries1, (key, ctx));
                }
                self.shared.push((key, ctx));
                proof {
                    lemma_entries_valid(self.shared@, self@);
                }
                true
            },
        }
    }

    /// Removes `key` from the registry; reports whether it was present. The
    /// context it designated is not touched.
    pub fn erase_ctx(&mut self, key: &str) -> (r: bool)
        requires
            old(self).wf(),
        ensures
            final(self).wf(),
            final(self)@.ctxs == old(self)@.ctxs,
            final(self)@.exit == old(self)@.exit,
            r == old(self)@.shared.contains_key(key@),
            final(self)@.shared == old(self)@.shared.remove(key@),
    {
        let k = String::from_str(key);
        proof {
            lemma_assoc_contains(self.shared@, key@);
        }
        let found = self.find_entry(&k);
        match found {
            Some(i) => {
                proof {
                    lemma_assoc_remove(self.shared@, i as int);
                }
                self.shared.remove(i);
                true
            },
            None => {
                proof {
                    assert(self@.shared =~= self@.shared.remove(key@));
                }
                false
            },
        }
    }

    /// The index published under `key`, if any.
    pub fn get_ctx(&self, key: &str) -> (r: Option<usize>)
        requires
            self.wf(),
        ensures
            match r {
                Some(id) => self@.shared.contains_key(key@) && id == self@.shared[key@] && id
                    < self@.ctxs.len(),
                None => !self@.shared.contains_key(key@),
            },
    {
        let k = String::from_str(key);
        proof {
            lemma_assoc_contains(self.shared@, key@);
        }
        match self.find_entry(&k) {
            Some(i) => {
                proof {
                    lemma_assoc_index(self.shared@, i as int);
                }
                let e = &self.shared[i];
                Some(e.1)
            },
            None => None,
        }
    }
}

} // verus!
