//! Per-source agreement counting over samples of matched points.
//!
//! For each sample, the sources that supplied a point are hits; when at least
//! three did, the single-linkage dendrogram of their points (computed by the
//! caller) is walked from the closest merge up, and the sources in the merges
//! below the distance threshold agree.

use vstd::prelude::*;
use crate::tokenize::views;

verus! {

/// The counts of one source.
#[derive(Clone, Copy, Debug, PartialEq, Eq, Structural)]
pub struct Results {
    pub agreement_count: u32,
    pub hit_count: u32,
}

impl Results {
    pub fn new() -> (r: Results)
        ensures
            r.agreement_count == 0,
            r.hit_count == 0,
    {
        Results { agreement_count: 0, hit_count: 0 }
    }
}

/// Counts for each source over the samples seen so far.
pub struct Agreement {
    pub results: Vec<(String, Results)>,
    pub threshold: u32,
    pub sample_count: u32,
}

/// `x` counted once more when `b` holds; a count at `u32::MAX` stays there.
pub open spec fn bump(x: u32, b: bool) -> u32 {
    if b && x < u32::MAX {
        (x + 1) as u32
    } else {
        x
    }
}

/// The source names of a result list.
pub open spec fn keys(r: Seq<(String, Results)>) -> Seq<Seq<char>> {
    r.map_values(|e: (String, Results)| e.0@)
}

/// `s` without repeats, each kept where it first appears.
pub open spec fn distinct(s: Seq<Seq<char>>) -> Seq<Seq<char>>
    decreases s.len(),
{
    if s.len() == 0 {
        s
    } else if distinct(s.drop_last()).contains(s.last()) {
        distinct(s.drop_last())
    } else {
        distinct(s.drop_last()).push(s.last())
    }
}

/// Whether `s` holds a string with the view `x`.
pub open spec fn holds(s: Seq<String>, x: Seq<char>) -> bool {
    exists|k: int| 0 <= k < s.len() && (#[trigger] s[k])@ == x
}

/// The observation indices of the merges below the threshold, from step `i`
/// on: both clusters of each merge, up to the first merge at or above it.
pub open spec fn modal_from(steps: Seq<(usize, usize, bool)>, i: int) -> Seq<usize>
    decreases steps.len() - i,
{
    if i < 0 || i >= steps.len() || !steps[i].2 {
        Seq::empty()
    } else {
        seq![steps[i].0, steps[i].1] + modal_from(steps, i + 1)
    }
}

/// Whether the source `x` is an observation of the modal cluster: some
/// collected index below the number of hits names it.
pub open spec fn in_modal(hits: Seq<String>, steps: Seq<(usize, usize, bool)>, x: Seq<char>) -> bool {
    exists|k: int|
        0 <= k < modal_from(steps, 0).len() && (#[trigger] modal_from(steps, 0)[k]) < hits.len()
            && hits[modal_from(steps, 0)[k] as int]@ == x
}

impl Agreement {
    /// Each source is listed once, and its agreements are at most its hits,
    /// which are at most the samples.
    pub open spec fn wf(&self) -> bool {
        &&& forall|k: int|
            0 <= k < self.results@.len() ==> (#[trigger] self.results@[k]).1.agreement_count
                <= self.results@[k].1.hit_count <= self.sample_count
        &&& forall|i: int, j: int|
            0 <= i < j < self.results@.len() ==> (#[trigger] self.results@[i]).0@ != (#[trigger] self.results@[j]).0@
    }

    /// Counters at zero for each source; a repeated source is listed once,
    /// where it first appears.
    pub fn new(sources: Vec<String>, threshold: u32) -> (r: Agreement)
        ensures
            r.wf(),
            r.threshold == threshold,
            r.sample_count == 0,
            keys(r.results@) == distinct(views(sources@)),
            forall|k: int| 0 <= k < r.results@.len() ==> (#[trigger] r.results@[k]).1.agreement_count == 0
                && r.results@[k].1.hit_count == 0,
    {
        let mut results: Vec<(String, Results)> = Vec::new();
        let mut i: usize = 0;
        while i < sources.len()
            invariant
                i <= sources@.len(),
                keys(results@) == distinct(views(sources@).take(i as int)),
                forall|a: int, b: int|
                    0 <= a < b < results@.len() ==> (#[trigger] results@[a]).0@ != (#[trigger] results@[b]).0@,
                forall|k: int| 0 <= k < results@.len() ==> (#[trigger] results@[k]).1.agreement_count == 0
                    && results@[k].1.hit_count == 0,
            decreases sources@.len() - i,
        {
            let ghost before = keys(results@);
            assert(views(sources@).take(i + 1).drop_last() =~= views(sources@).take(i as int));
            assert(views(sources@).take(i + 1).last() == sources@[i as int]@);
            let mut seen = false;
            let mut j: usize = 0;
            while j < results.len()
                invariant
                    j <= results@.len(),
                    i < sources@.len(),
                    before == keys(results@),
                    seen == before.take(j as int).contains(sources@[i as int]@),
                decreases results@.len() - j,
            {
                assert(before.take(j + 1) =~= before.take(j as int).push(results@[j as int].0@));
                if results[j].0 == sources[i] {
                    assert(before.take(j + 1)[j as int] == sources@[i as int]@);
                    seen = true;
                } else if !seen {
                    proof {
                        if before.take(j + 1).contains(sources@[i as int]@) {
                            let q = choose|q: int| 0 <= q < j + 1 && #[trigger] before.take(j + 1)[q] == sources@[i as int]@;
                            assert(before.take(j as int)[q] == sources@[i as int]@);
                        }
                    }
                }
                j = j + 1;
            }
            assert(before.take(j as int) =~= before);
            if !seen {
                results.push((sources[i].clone(), Results::new()));
                assert(keys(results@) =~= before.push(sources@[i as int]@));
                assert forall|a: int, b: int|
                    0 <= a < b < results@.len() implies (#[trigger] results@[a]).0@ != (#[trigger] results@[b]).0@ by {
                    if b == results@.len() - 1 {
                        assert(before[a] == results@[a].0@);
                    }
                }
            }
            i = i + 1;
        }
        assert(views(sources@).take(i as int) =~= views(sources@));
        Agreement { results, threshold, sample_count: 0 }
    }

    /// Records one sample. `hits` are the sources that supplied a point (in
    /// the order of the dendrogram's observations); `steps` are the
    /// dendrogram's merges, closest first, each with its two cluster indices
    /// and whether its dissimilarity is below the threshold. Every listed
    /// source counts a hit; when at least three sources hit, every source among
    /// the observations merged below the threshold counts an agreement.
    pub fn process_points(&mut self, hits: &Vec<String>, steps: &Vec<(usize, usize, bool)>)
        requires
            old(self).wf(),
        ensures
            final(self).wf(),
            final(self).sample_count == bump(old(self).sample_count, true),
            final(self).threshold == old(self).threshold,
            final(self).results@.len() == old(self).results@.len(),
            forall|k: int|
                0 <= k < old(self).results@.len() ==> {
                    let o = #[trigger] old(self).results@[k];
                    let n = final(self).results@[k];
                    &&& n.0 == o.0
                    &&& n.1.hit_count == bump(o.1.hit_count, holds(hits@, o.0@))
                    &&& n.1.agreement_count == bump(
                        o.1.agreement_count,
                        hits@.len() >= 3 && holds(hits@, o.0@) && in_modal(hits@, steps@, o.0@),
                    )
                },
    {
        if self.sample_count < u32::MAX {
            self.sample_count = self.sample_count + 1;
        }
        let ghost modal = modal_from(steps@, 0);
        let mut labels: Vec<usize> = Vec::new();
        let mut s: usize = 0;
        while s < steps.len() && steps[s].2
            invariant
                s <= steps@.len(),
                labels@ + modal_from(steps@, s as int) == modal,
            decreases steps@.len() - s,
        {
            let ghost before = labels@;
            labels.push(steps[s].0);
            labels.push(steps[s].1);
            assert(labels@ + modal_from(steps@, s + 1) =~= before + modal_from(steps@, s as int));
            s = s + 1;
        }
        assert(labels@ + modal_from(steps@, s as int) =~= labels@);
        let enough = hits.len() >= 3;
        let n = self.results.len();
        let ghost old_results = self.results@;
        let mut k: usize = 0;
        while k < n
            invariant
                n == self.results@.len(),
                n == old_results.len(),
                k <= n,
                labels@ == modal,
                modal == modal_from(steps@, 0),
                enough == (hits@.len() >= 3),
                self.sample_count == bump(old(self).sample_count, true),
                self.threshold == old(self).threshold,
                self.wf(),
                old_results == old(self).results@,
                old(self).wf(),
                forall|q: int| k <= q < n ==> #[trigger] self.results@[q] == old_results[q],
                forall|q: int|
                    0 <= q < k ==> {
                        let o = #[trigger] old_results[q];
                        let x = self.results@[q];
                        &&& x.0 == o.0
                        &&& x.1.hit_count == bump(o.1.hit_count, holds(hits@, o.0@))
                        &&& x.1.agreement_count == bump(
                            o.1.agreement_count,
                            hits@.len() >= 3 && holds(hits@, o.0@) && in_modal(hits@, steps@, o.0@),
                        )
                    },
            decreases n - k,
        {
            let name = self.results[k].0.clone();
            let mut r = self.results[k].1;
            assert(old_results[k as int].1.agreement_count <= old_results[k as int].1.hit_count <= old(self).sample_count);
            let hit = contains_string(hits, &name);
            if hit {
                if r.hit_count < u32::MAX {
                    r.hit_count = r.hit_count + 1;
                }
                if enough && modal_names(hits, &labels, &name, steps) && r.agreement_count < u32::MAX {
                    r.agreement_count = r.agreement_count + 1;
                }
            }
            self.results.set(k, (name, r));
            k = k + 1;
        }
    }

    /// The counts of each source.
    pub fn get_results(&self) -> (r: &Vec<(String, Results)>)
        ensures
            r == &self.results,
    {
        &self.results
    }
}

fn contains_string(s: &Vec<String>, x: &String) -> (r: bool)
    ensures
        r == holds(s@, x@),
{
    let mut i: usize = 0;
    while i < s.len()
        invariant
            i <= s@.len(),
            forall|k: int| 0 <= k < i ==> (#[trigger] s@[k])@ != x@,
        decreases s@.len() - i,
    {
        if s[i] == *x {
            return true;
        }
        i = i + 1;
    }
    false
}

fn modal_names(hits: &Vec<String>, labels: &Vec<usize>, x: &String, steps: &Vec<(usize, usize, bool)>) -> (r: bool)
    requires
        labels@ == modal_from(steps@, 0),
    ensures
        r == in_modal(hits@, steps@, x@),
{
    let mut i: usize = 0;
    while i < labels.len()
        invariant
            i <= labels@.len(),
            labels@ == modal_from(steps@, 0),
            forall|k: int| 0 <= k < i ==> !((#[trigger] labels@[k]) < hits@.len() && hits@[labels@[k] as int]@ == x@),
        decreases labels@.len() - i,
    {
        let idx = labels[i];
        if idx < hits.len() && hits[idx] == *x {
            return true;
        }
        i = i + 1;
    }
    false
}

/// Agreements never exceed hits, and hits never exceed samples, for every
/// source of a well-formed counter.
pub proof fn lemma_counts_bounded(a: &Agreement, k: int)
    requires
        a.wf(),
        0 <= k < a.results@.len(),
    ensures
        a.results@[k].1.hit_count <= a.sample_count,
        a.results@[k].1.agreement_count <= a.results@[k].1.hit_count,
{
}

} // verus!
