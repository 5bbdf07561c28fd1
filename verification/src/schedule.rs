//! The controller loop's explicit work queue: pending reconciliations keyed
//! by resource identity and next-due time, deduplicated so that multiple
//! pending triggers for the same identity collapse into one.

use vstd::prelude::*;

verus! {

/// The content of the queue's entries: resource identity (by character
/// content) and due time.
pub open spec fn entry_views(s: Seq<(String, u64)>) -> Seq<(Seq<char>, u64)> {
    s.map_values(|e: (String, u64)| (e.0@, e.1))
}

/// Pending reconciliations, each an identity with the time it is next due.
#[derive(Debug, Clone)]
pub struct WorkQueue {
    /// The pending entries; identities are unique.
    pub entries: Vec<(String, u64)>,
}

impl WorkQueue {
    /// The queue invariant: each identity has at most one pending entry.
    pub open spec fn wf(&self) -> bool {
        forall|i: int, j: int|
            0 <= i < j < self.entries@.len() ==> (#[trigger] self.entries@[i]).0@ != (
            #[trigger] self.entries@[j]).0@
    }

    /// An empty queue.
    pub fn new() -> (q: WorkQueue)
        ensures
            q.entries@.len() == 0,
            q.wf(),
    {
        WorkQueue { entries: Vec::new() }
    }

    /// The position of the identity's pending entry, if it has one.
    fn find(&self, identity: &String) -> (idx: Option<usize>)
        ensures
            idx matches Some(i) ==> i < self.entries@.len() && self.entries@[i as int].0@
                == identity@,
            idx is None ==> forall|j: int|
                0 <= j < self.entries@.len() ==> (#[trigger] self.entries@[j]).0@ != identity@,
    {
        let n = self.entries.len();
        let mut i: usize = 0;
        while i < n
            invariant
                i <= n,
                n == self.entries@.len(),
                forall|j: int| 0 <= j < i ==> (#[trigger] self.entries@[j]).0@ != identity@,
            decreases n - i,
        {
            if self.entries[i].0.eq(identity) {
                return Some(i);
            }
            i += 1;
        }
        None
    }

    /// Schedule a reconciliation of `identity` at `due`. A trigger for an
    /// identity that is already pending collapses into the existing entry,
    /// keeping the earlier of the two due times.
    pub fn schedule(&mut self, identity: String, due: u64)
        requires
            old(self).wf(),
        ensures
            final(self).wf(),
            ({
                let s = entry_views(old(self).entries@);
                let t = entry_views(final(self).entries@);
                if exists|i: int| 0 <= i < s.len() && s[i].0 == identity@ {
                    let i = choose|i: int| 0 <= i < s.len() && s[i].0 == identity@;
                    t =~= s.update(
                        i,
                        (
                            identity@,
                            if due < s[i].1 {
                                due
                            } else {
                                s[i].1
                            },
                        ),
                    )
                } else {
                    t =~= s.push((identity@, due))
                }
            }),
    {
        match self.find(&identity) {
            Some(i) => {
                let existing = self.entries[i].1;
                let earlier: u64 = if due < existing {
                    due
                } else {
                    existing
                };
                self.entries.set(i, (identity, earlier));
                proof {
                    let s = entry_views(old(self).entries@);
                    let t = entry_views(self.entries@);
                    let k = choose|k: int| 0 <= k < s.len() && s[k].0 == s[i as int].0;
                    assert(k == i as int);
                    assert(t =~= s.update(i as int, (s[i as int].0, earlier)));
                }
            },
            None => {
                self.entries.push((identity, due));
                proof {
                    assert(entry_views(self.entries@) =~= entry_views(old(self).entries@).push(
                        (identity@, due),
                    ));
                }
            },
        }
    }

    /// Remove and return the first pending entry that is due at `now`, or
    /// nothing when no entry is due yet.
    pub fn pop_due(&mut self, now: u64) -> (r: Option<(String, u64)>)
        requires
            old(self).wf(),
        ensures
            final(self).wf(),
            r is None ==> *final(self) == *old(self) && forall|j: int|
                0 <= j < old(self).entries@.len() ==> (#[trigger] old(self).entries@[j]).1 > now,
            r matches Some(e) ==> e.1 <= now && exists|i: int|
                {
                    &&& 0 <= i < old(self).entries@.len()
                    &&& entry_views(old(self).entries@)[i] == (e.0@, e.1)
                    &&& entry_views(final(self).entries@) =~= entry_views(
                        old(self).entries@,
                    ).remove(i)
                },
    {
        let n = self.entries.len();
        let mut i: usize = 0;
        while i < n
            invariant
                i <= n,
                n == self.entries@.len(),
                self == old(self),
                self.wf(),
                forall|j: int| 0 <= j < i ==> (#[trigger] self.entries@[j]).1 > now,
            decreases n - i,
        {
            if self.entries[i].1 <= now {
                let entry = self.entries.remove(i);
                proof {
                    old(self).entries@.remove_ensures(i as int);
                    assert(entry_views(self.entries@) =~= entry_views(old(self).entries@).remove(
                        i as int,
                    ));
                    assert forall|a: int, b: int|
                        0 <= a < b < self.entries@.len() implies (#[trigger] self.entries@[a]).0@
                        != (#[trigger] self.entries@[b]).0@ by {
                        let oa: int = if a < i as int {
                            a
                        } else {
                            a + 1
                        };
                        let ob: int = if b < i as int {
                            b
                        } else {
                            b + 1
                        };
                        assert(self.entries@ == old(self).entries@.remove(i as int));
                        assert(old(self).entries@.remove(i as int)[a] == old(self).entries@[oa]);
                        assert(old(self).entries@.remove(i as int)[b] == old(self).entries@[ob]);
                        assert((old(self).entries@[oa]).0@ != (old(self).entries@[ob]).0@);
                    }
                }
                return Some(entry);
            }
            i += 1;
        }
        None
    }
}

} // verus!
