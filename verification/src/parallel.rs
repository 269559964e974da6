//! Splitting a vector into one chunk per worker, and running the chunks on
//! the thread pool.

use rayon::iter::{IntoParallelIterator, ParallelIterator};
use vstd::prelude::*;

verus! {

/// Length of the chunks that `total` items are cut into for `workers`
/// workers: `total / workers` rounded up, and never less than one.
pub open spec fn chunk_len_of(total: nat, workers: nat) -> nat {
    if total == 0 || workers == 0 {
        1
    } else if total % workers == 0 {
        total / workers
    } else {
        total / workers + 1
    }
}

/// Number of chunks of length `chunk` that cover `total` items.
pub open spec fn chunk_count_of(total: nat, chunk: nat) -> nat {
    if chunk == 0 {
        0
    } else if total % chunk == 0 {
        total / chunk
    } else {
        total / chunk + 1
    }
}

/// First index of chunk `k`.
pub open spec fn chunk_start(k: nat, chunk: nat) -> nat {
    k * chunk
}

/// Index after the last of chunk `k`.
pub open spec fn chunk_end(k: nat, chunk: nat, total: nat) -> nat {
    if (k + 1) * chunk <= total {
        (k + 1) * chunk
    } else {
        total
    }
}

/// The chunks lie inside the vector, one after the other, and the last one
/// ends where the vector ends.
pub proof fn lemma_chunk_bounds(k: nat, chunk: nat, total: nat)
    requires
        chunk > 0,
        k < chunk_count_of(total, chunk),
    ensures
        chunk_start(0, chunk) == 0,
        chunk_start(k + 1, chunk) == chunk_start(k, chunk) + chunk,
        chunk_start(k, chunk) < total,
        chunk_end(k, chunk, total) == if chunk_start(k, chunk) + chunk <= total {
            chunk_start(k, chunk) + chunk
        } else {
            total
        },
        k + 1 == chunk_count_of(total, chunk) <==> chunk_start(k, chunk) + chunk >= total,
{
    let q = total / chunk;
    let r = total % chunk;
    assert(total == chunk * q + r && 0 <= r < chunk) by (nonlinear_arith)
        requires
            chunk > 0,
            q == total / chunk,
            r == total % chunk,
    ;
    assert(0 * chunk == 0) by (nonlinear_arith);
    assert((k + 1) * chunk == k * chunk + chunk) by (nonlinear_arith);
    assert(q * chunk == chunk * q) by (nonlinear_arith);
    if k < q {
        assert((k + 1) * chunk <= q * chunk) by (nonlinear_arith)
            requires
                k + 1 <= q,
                chunk > 0,
        ;
        if k + 1 < q {
            assert((k + 2) * chunk <= q * chunk) by (nonlinear_arith)
                requires
                    k + 2 <= q,
                    chunk > 0,
            ;
            assert((k + 2) * chunk == k * chunk + chunk + chunk) by (nonlinear_arith);
        }
    } else {
        assert(k * chunk == chunk * q) by (nonlinear_arith)
            requires
                k == q,
        ;
    }
}

/// A chunk holds at least one item.
pub proof fn lemma_chunk_len_positive(total: nat, workers: nat)
    ensures
        chunk_len_of(total, workers) >= 1,
{
    if total > 0 && workers > 0 && total % workers == 0 {
        assert(total / workers >= 1) by (nonlinear_arith)
            requires
                total > 0,
                workers > 0,
                total % workers == 0,
        ;
    }
}

/// Only an empty vector has no chunk.
pub proof fn lemma_no_chunk(chunk: nat, total: nat)
    requires
        chunk > 0,
    ensures
        chunk_count_of(total, chunk) == 0 <==> total == 0,
        chunk_start(0, chunk) == 0,
{
    let q = total / chunk;
    let r = total % chunk;
    assert(total == chunk * q + r && 0 <= r < chunk) by (nonlinear_arith)
        requires
            chunk > 0,
            q == total / chunk,
            r == total % chunk,
    ;
    assert(0 * chunk == 0) by (nonlinear_arith);
    if q == 0 {
        assert(chunk * q == 0) by (nonlinear_arith)
            requires
                q == 0,
        ;
    } else {
        assert(chunk * q >= chunk) by (nonlinear_arith)
            requires
                q >= 1,
                chunk > 0,
        ;
    }
}

/// `num_cpus::get`: the number of logical cores, which is at least one.
#[verifier::external_body]
fn logical_cores() -> (n: usize)
    ensures
        n >= 1,
{
    num_cpus::get()
}

/// Number of workers to split the work for.
pub fn available_workers() -> (n: usize)
    ensures
        n >= 1,
{
    logical_cores()
}

/// Length of the chunks that `total` items are cut into for `workers`
/// workers.
pub fn chunk_len(total: usize, workers: usize) -> (chunk: usize)
    ensures
        chunk == chunk_len_of(total as nat, workers as nat),
        chunk >= 1,
        chunk <= total || total == 0,
{
    if total == 0 || workers == 0 {
        1
    } else if total % workers == 0 {
        let c: usize = total / workers;
        assert(c >= 1 && c <= total) by (nonlinear_arith)
            requires
                c == total / workers,
                total % workers == 0,
                total > 0,
                workers > 0,
        ;
        c
    } else {
        let c: usize = total / workers;
        assert(c < total) by (nonlinear_arith)
            requires
                c == total / workers,
                total % workers != 0,
                total > 0,
                workers > 0,
        ;
        c + 1
    }
}

/// Number of chunks of length `chunk` that cover `total` items.
pub fn chunk_count(total: usize, chunk: usize) -> (count: usize)
    requires
        chunk > 0,
    ensures
        count == chunk_count_of(total as nat, chunk as nat),
        count <= total,
{
    let q: usize = total / chunk;
    assert(q <= total) by (nonlinear_arith)
        requires
            q == total / chunk,
            chunk > 0,
    ;
    if total % chunk == 0 {
        q
    } else {
        assert(q < total) by (nonlinear_arith)
            requires
                q == total / chunk,
                total % chunk != 0,
                chunk > 0,
        ;
        q + 1
    }
}

/// rayon's `into_par_iter`, `map` and `collect` on the range `0..count`: `f`
/// is called once for every index, on the thread pool, and the results are
/// collected in the order of the indices, so that entry `i` is what `f`
/// returned for `i`.
#[verifier::external_body]
pub(crate) fn par_map<T: Send, F: Fn(usize) -> T + Sync + Send>(count: usize, f: F) -> (out: Vec<T>)
    requires
        forall|i: usize| i < count ==> call_requires(f, (i,)),
    ensures
        out@.len() == count,
        forall|i: usize| i < count ==> call_ensures(f, (i,), #[trigger] out@[i as int]),
{
    (0..count).into_par_iter().map(|i| f(i)).collect()
}

} // verus!
