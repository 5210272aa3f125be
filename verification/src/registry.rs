//! The in-flight-child registry: a mapping from a caller-visible numeric
//! handle to exactly one owned, not-yet-joined resource (a spawned child
//! process, in the running bridge). A handle is present at most once, and
//! looking a handle up removes it, so each handle is good for exactly one
//! `wait`/`kill` call; a second use of the same handle fails.

use vstd::prelude::*;

verus! {

/// True when some entry of `s` carries the handle `id`.
pub open spec fn has_handle<T>(s: Seq<(u32, T)>, id: u32) -> bool {
    exists|i: int| 0 <= i < s.len() && #[trigger] s[i].0 == id
}

/// Handles are pairwise distinct.
pub open spec fn handles_unique<T>(s: Seq<(u32, T)>) -> bool {
    forall|i: int, j: int|
        0 <= i < j < s.len() ==> #[trigger] s[i].0 != #[trigger] s[j].0
}

/// A registry of owned resources keyed by numeric handle.
///
/// The resource type is generic: the bridge front end instantiates it with
/// its child-process type. Entries are added by `register` and consumed
/// (removed and returned) by `take`; there is no iteration and no cleanup
/// pass.
pub struct Registry<T> {
    entries: Vec<(u32, T)>,
}

impl<T> Registry<T> {
    /// The registry viewed as the sequence of its (handle, resource) entries.
    pub closed spec fn view(&self) -> Seq<(u32, T)> {
        self.entries@
    }

    /// Well-formedness: no handle occurs twice.
    pub open spec fn wf(&self) -> bool {
        handles_unique(self@)
    }

    /// An empty registry.
    pub fn new() -> (r: Registry<T>)
        ensures
            r@ == Seq::<(u32, T)>::empty(),
            r.wf(),
    {
        Registry { entries: Vec::new() }
    }

    /// Whether `id` is currently registered.
    pub fn contains(&self, id: u32) -> (r: bool)
        ensures
            r == has_handle(self@, id),
    {
        let n = self.entries.len();
        for i in 0..n
            invariant
                n == self.entries.len(),
                forall|j: int| 0 <= j < i ==> #[trigger] self.entries@[j].0 != id,
        {
            if self.entries[i].0 == id {
                return true;
            }
        }
        false
    }

    /// Adds `child` under `id`; refuses a handle already in use.
    pub fn register(&mut self, id: u32, child: T) -> (ok: bool)
        requires
            old(self).wf(),
        ensures
            final(self).wf(),
            ok == !has_handle(old(self)@, id),
            ok ==> final(self)@ == old(self)@.push((id, child)),
            !ok ==> final(self)@ == old(self)@,
    {
        if self.contains(id) {
            false
        } else {
            self.entries.push((id, child));
            true
        }
    }

    /// Consumes the entry under `id`: removes it and hands the resource out.
    /// Returns `None` when `id` was never registered or already consumed.
    pub fn take(&mut self, id: u32) -> (r: Option<T>)
        requires
            old(self).wf(),
        ensures
            final(self).wf(),
            r is Some <==> has_handle(old(self)@, id),
            !has_handle(final(self)@, id),
            r is Some ==> exists|i: int|
                0 <= i < old(self)@.len() && #[trigger] old(self)@[i] == (id, r->Some_0)
                    && final(self)@ == old(self)@.remove(i),
            r is None ==> final(self)@ == old(self)@,
            forall|k: u32| k != id ==> has_handle(final(self)@, k) == has_handle(old(self)@, k),
    {
        let n = self.entries.len();
        for i in 0..n
            invariant
                n == self.entries.len(),
                self.entries@ == old(self)@,
                handles_unique(self.entries@),
                forall|j: int| 0 <= j < i ==> #[trigger] self.entries@[j].0 != id,
        {
            if self.entries[i].0 == id {
                let (_, child) = self.entries.remove(i);
                proof {
                    let s0 = old(self)@;
                    let s1 = self.entries@;
                    assert(s1 =~= s0.remove(i as int));
                    assert forall|k: u32| has_handle(s1, k) implies has_handle(s0, k) by {
                        let j = choose|j: int| 0 <= j < s1.len() && #[trigger] s1[j].0 == k;
                        if j < i {
                            assert(s0[j].0 == k);
                        } else {
                            assert(s0[j + 1].0 == k);
                        }
                    };
                    assert forall|k: u32| k != id && has_handle(s0, k) implies has_handle(
                        s1,
                        k,
                    ) by {
                        let j = choose|j: int| 0 <= j < s0.len() && #[trigger] s0[j].0 == k;
                        if j < i {
                            assert(s1[j].0 == k);
                        } else {
                            assert(j != i);
                            assert(s1[j - 1].0 == k);
                        }
                    };
                    assert(!has_handle(s1, id));
                }
                return Some(child);
            }
        }
        None
    }
}

} // verus!
