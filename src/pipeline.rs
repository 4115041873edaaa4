//! The decisions of the conflation, consensus and linking runs that sit
//! between the store reads and writes: matching one address against nearby
//! ones, cleaning up a name list, and splitting the id range among workers.

use vstd::prelude::*;
use crate::linker::{link_spec, linker, names_fit, Link};
use crate::name::{normalized, Name, Names};

verus! {

/// Matches an address against the nearby addresses with the same number, in
/// strict mode: the id of the one it duplicates, or none when it is new.
pub fn compare(potential: Link, persistents: Vec<Link>) -> (r: Option<i64>)
    requires
        names_fit(potential.names.names@),
        forall|j: int| 0 <= j < persistents@.len() ==> names_fit((#[trigger] persistents@[j]).names.names@),
    ensures
        persistents@.len() == 0 ==> r.is_none(),
        r == match link_spec(potential.names.names@, persistents@, true) {
            Some(x) => Some(x.0),
            None => None,
        },
{
    let ghost spec = link_spec(potential.names.names@, persistents@, true);
    if persistents.len() == 0 {
        assert(spec.is_none()) by {
            crate::linker::lemma_first_exact_empty(potential.names.names@, persistents@, true, 0);
        }
        return None;
    }
    match linker(potential, persistents, true) {
        Some(link) => Some(link.id),
        None => None,
    }
}

/// The displays of a name list once empty names are dropped, the rest sorted
/// and duplicates removed.
pub fn dedupe_syn(names: Vec<Name>) -> (r: Vec<String>)
    ensures
        r@.len() == normalized(names@).len(),
        forall|i: int| 0 <= i < r@.len() ==> (#[trigger] r@[i])@ == normalized(names@)[i].display@,
{
    let mut set = Names { names };
    set.empty();
    set.sort();
    set.dedupe();
    let mut out: Vec<String> = Vec::new();
    let mut i: usize = 0;
    while i < set.names.len()
        invariant
            i <= set.names@.len(),
            set.names@ == normalized(names@),
            out@.len() == i,
            forall|k: int| 0 <= k < i ==> (#[trigger] out@[k])@ == set.names@[k].display@,
        decreases set.names@.len() - i,
    {
        out.push(set.names[i].display.clone());
        i = i + 1;
    }
    out
}

/// The id window of worker `cpu` when ids `0..=count` are shared among
/// `cpus` workers: equal shares, the remainder going to the first.
pub open spec fn window(count: int, cpus: int, cpu: int) -> (int, int) {
    let extra = count % cpus;
    let batch = count / cpus;
    (if cpu == 0 { 0 } else { batch * cpu + extra + 1 }, batch * cpu + batch + extra)
}

/// The id windows of `cpus` workers sharing the ids `0..=count`.
pub fn link_windows(count: i64, cpus: i64) -> (r: Vec<(i64, i64)>)
    requires
        0 <= count < 0x1_0000_0000_0000,
        1 <= cpus < 0x1_0000,
    ensures
        r@.len() == cpus,
        forall|k: int| 0 <= k < cpus ==> ((#[trigger] r@[k]).0 as int, r@[k].1 as int) == window(count as int, cpus as int, k),
{
    let c = count as u64;
    let p = cpus as u64;
    let extra = c % p;
    let batch = c / p;
    proof {
        vstd::arithmetic::div_mod::lemma_fundamental_div_mod(c as int, p as int);
    }
    assert(batch * p + extra == c) by (nonlinear_arith)
        requires
            c as int == p as int * (c as int / p as int) + c as int % p as int,
            batch as int == c as int / p as int,
            extra as int == c as int % p as int,
    ;
    let mut out: Vec<(i64, i64)> = Vec::new();
    let mut cpu: u64 = 0;
    while cpu < p
        invariant
            0 <= cpu <= p,
            p == cpus,
            c == count,
            p < 0x1_0000,
            c < 0x1_0000_0000_0000,
            batch * p + extra == c,
            extra < p,
            extra as int == (count as int) % (cpus as int),
            batch as int == (count as int) / (cpus as int),
            out@.len() == cpu,
            forall|k: int| 0 <= k < cpu ==> ((#[trigger] out@[k]).0 as int, out@[k].1 as int) == window(count as int, cpus as int, k),
        decreases p - cpu,
    {
        assert(batch * cpu + batch <= batch * p) by (nonlinear_arith)
            requires
                cpu < p,
        ;
        let low: u64 = if cpu == 0 { 0 } else { batch * cpu + extra + 1 };
        let high: u64 = batch * cpu + batch + extra;
        out.push((low as i64, high as i64));
        cpu = cpu + 1;
    }
    out
}

/// The windows share out `0..=count` with neither gap nor overlap: the first
/// starts at 0, each starts just after the one before ends, the last ends at `count`.
pub proof fn lemma_windows_partition(count: int, cpus: int, k: int)
    requires
        0 <= count,
        1 <= cpus,
        0 <= k < cpus,
    ensures
        window(count, cpus, 0).0 == 0,
        k + 1 < cpus ==> window(count, cpus, k).1 + 1 == window(count, cpus, k + 1).0,
        window(count, cpus, cpus - 1).1 == count,
{
    let batch = count / cpus;
    let extra = count % cpus;
    vstd::arithmetic::div_mod::lemma_fundamental_div_mod(count, cpus);
    assert(batch * k + batch == batch * (k + 1)) by (nonlinear_arith);
    assert(batch * (cpus - 1) + batch == batch * cpus) by (nonlinear_arith);
    assert(batch * cpus == cpus * batch) by (nonlinear_arith);
}

/// The id ranges of one worker's window `min..max`: blocks of 5001 ids
/// starting at `min`, while the block start is below `max`.
pub fn batch_ranges(min_id: i64, max_id: i64) -> (r: Vec<(i64, i64)>)
    requires
        0 <= min_id < 0x1_0000_0000_0000,
        max_id < 0x1_0000_0000_0000,
    ensures
        forall|k: int| 0 <= k < r@.len() ==> (#[trigger] r@[k]).0 == min_id + 5001 * k && r@[k].1 == min_id
            + 5001 * k + 5000 && r@[k].0 < max_id,
        min_id + 5001 * r@.len() >= max_id,
{
    let mut out: Vec<(i64, i64)> = Vec::new();
    let mut it = min_id;
    while it < max_id
        invariant
            0 <= min_id <= it,
            max_id < 0x1_0000_0000_0000,
            it < 0x1_0000_0000_0000 + 5001,
            min_id < 0x1_0000_0000_0000,
            it == min_id + 5001 * out@.len(),
            forall|k: int| 0 <= k < out@.len() ==> (#[trigger] out@[k]).0 == min_id + 5001 * k && out@[k].1 == min_id
                + 5001 * k + 5000 && out@[k].0 < max_id,
        decreases max_id + 5001 - it,
    {
        out.push((it, it + 5000));
        it = it + 5001;
    }
    out
}

} // verus!
