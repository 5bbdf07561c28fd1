//! The process-wide metrics model: a reconcile counter and a failure counter
//! labeled by error kind and resource label. A single owner holds all
//! counters; the text-format scrape endpoint around it is not part of the
//! core.

use vstd::prelude::*;

verus! {

/// The content of a sequence of failure counters: error kind, resource
/// label and count, by character content.
pub open spec fn counter_views(s: Seq<(String, String, u64)>) -> Seq<(Seq<char>, Seq<char>, u64)> {
    s.map_values(|t: (String, String, u64)| (t.0@, t.1@, t.2))
}

/// A count one higher, staying put at the maximum instead of overflowing.
pub open spec fn saturating_inc(c: u64) -> u64 {
    if c == u64::MAX {
        c
    } else {
        (c + 1) as u64
    }
}

/// How one recorded failure changes the failure counters: the counter keyed
/// by `e` and `r` is bumped if present, and appended with count 1 otherwise;
/// all other counters stay as they were.
pub open spec fn failure_counted(
    s: Seq<(Seq<char>, Seq<char>, u64)>,
    t: Seq<(Seq<char>, Seq<char>, u64)>,
    e: Seq<char>,
    r: Seq<char>,
) -> bool {
    if exists|i: int| 0 <= i < s.len() && s[i].0 == e && s[i].1 == r {
        let i = choose|i: int| 0 <= i < s.len() && s[i].0 == e && s[i].1 == r;
        t =~= s.update(i, (s[i].0, s[i].1, saturating_inc(s[i].2)))
    } else {
        t =~= s.push((e, r, 1u64))
    }
}

/// The metrics registry's call contract, as a value: how many
/// reconciliations ran, and how many failed per error kind per resource
/// label.
#[derive(Debug, Clone)]
pub struct Metrics {
    /// Total reconciliations observed.
    pub reconcile_count: u64,
    /// Failure counters: error kind, resource label, count. The label pairs
    /// are unique.
    pub failures: Vec<(String, String, u64)>,
}

impl Metrics {
    /// The registry invariant: each (error kind, resource label) pair owns at
    /// most one counter.
    pub open spec fn wf(&self) -> bool {
        forall|i: int, j: int|
            0 <= i < j < self.failures@.len() ==> !((#[trigger] self.failures@[i]).0@ == (
            #[trigger] self.failures@[j]).0@ && self.failures@[i].1@ == self.failures@[j].1@)
    }

    /// Count one reconciliation.
    pub fn count_reconcile(&mut self)
        ensures
            final(self).reconcile_count == saturating_inc(old(self).reconcile_count),
            final(self).failures == old(self).failures,
    {
        if self.reconcile_count < u64::MAX {
            self.reconcile_count = self.reconcile_count + 1;
        }
    }

    /// The position of the counter keyed by the two labels, if one exists.
    fn find_failure(&self, error_label: &String, resource_label: &String) -> (idx: Option<usize>)
        ensures
            idx matches Some(i) ==> i < self.failures@.len() && self.failures@[i as int].0@
                == error_label@ && self.failures@[i as int].1@ == resource_label@,
            idx is None ==> forall|j: int|
                0 <= j < self.failures@.len() ==> !((#[trigger] self.failures@[j]).0@
                    == error_label@ && self.failures@[j].1@ == resource_label@),
    {
        let n = self.failures.len();
        let mut i: usize = 0;
        while i < n
            invariant
                i <= n,
                n == self.failures@.len(),
                forall|j: int|
                    0 <= j < i ==> !((#[trigger] self.failures@[j]).0@ == error_label@
                        && self.failures@[j].1@ == resource_label@),
            decreases n - i,
        {
            if self.failures[i].0.eq(error_label) && self.failures[i].1.eq(resource_label) {
                return Some(i);
            }
            i += 1;
        }
        None
    }

    /// Record one failure under the given error kind and resource label:
    /// bump that pair's counter, or start it at 1.
    pub fn set_failure(&mut self, error_label: String, resource_label: String)
        requires
            old(self).wf(),
        ensures
            final(self).wf(),
            final(self).reconcile_count == old(self).reconcile_count,
            failure_counted(
                counter_views(old(self).failures@),
                counter_views(final(self).failures@),
                error_label@,
                resource_label@,
            ),
    {
        match self.find_failure(&error_label, &resource_label) {
            Some(i) => {
                let count = self.failures[i].2;
                let bumped: u64 = if count == u64::MAX {
                    count
                } else {
                    count + 1
                };
                let e = self.failures[i].0.clone();
                let r = self.failures[i].1.clone();
                self.failures.set(i, (e, r, bumped));
                proof {
                    let s = counter_views(old(self).failures@);
                    let t = counter_views(self.failures@);
                    let k = choose|k: int|
                        0 <= k < s.len() && s[k].0 == error_label@ && s[k].1 == resource_label@;
                    assert(s[i as int].0 == error_label@ && s[i as int].1 == resource_label@);
                    assert(k == i as int);
                    assert(t =~= s.update(i as int, (s[i as int].0, s[i as int].1, saturating_inc(s[i as int].2))));
                }
            },
            None => {
                self.failures.push((error_label, resource_label, 1));
                proof {
                    assert(counter_views(self.failures@) =~= counter_views(
                        old(self).failures@,
                    ).push((error_label@, resource_label@, 1u64)));
                }
            },
        }
    }
}

impl Default for Metrics {
    /// An empty registry: nothing counted yet.
    fn default() -> (m: Metrics)
        ensures
            m.reconcile_count == 0,
            m.failures@.len() == 0,
            m.wf(),
    {
        Metrics { reconcile_count: 0, failures: Vec::new() }
    }
}

} // verus!
