//! The powers of a scalar, built chunk by chunk on the thread pool.

use crate::parallel::{
    chunk_count, chunk_count_of, chunk_end, chunk_len, chunk_start, lemma_chunk_bounds,
    lemma_no_chunk, par_map,
};
use crate::scalar::{pow_mod, Scalar};
use vstd::prelude::*;

verus! {

/// The powers `tau^start, ..., tau^(start + len - 1)`: the first by
/// exponentiation, each next one by one multiplication.
pub fn powers_from(tau: &Scalar, start: usize, len: usize) -> (out: Vec<Scalar>)
    requires
        start + len <= usize::MAX,
    ensures
        out@.len() == len,
        forall|j: int| 0 <= j < len ==> (#[trigger] out@[j])@ == pow_mod(tau@, (start + j) as nat),
{
    let mut acc = tau.pow(start as u64);
    let mut out: Vec<Scalar> = Vec::new();
    let mut j: usize = 0;
    while j < len
        invariant
            j <= len,
            out@.len() == j,
            acc@ == pow_mod(tau@, (start + j) as nat),
            forall|i: int| 0 <= i < j ==> (#[trigger] out@[i])@ == pow_mod(tau@, (start + i) as nat),
        decreases len - j,
    {
        out.push(acc.duplicate());
        acc = acc.mul(tau);
        j += 1;
    }
    out
}

/// Whether `part` holds the powers of `tau` with the exponents `start..end`.
pub open spec fn part_holds_powers(part: Seq<Scalar>, tau: nat, start: nat, end: nat) -> bool {
    &&& part.len() == end - start
    &&& forall|j: int|
        0 <= j < part.len() ==> (#[trigger] part[j])@ == pow_mod(tau, (start + j) as nat)
}

/// The powers `tau^0, ..., tau^(count - 1)`. The range is cut into one chunk
/// per worker, and the chunks are filled independently of each other.
pub fn tau_powers(tau: &Scalar, count: usize, workers: usize) -> (powers: Vec<Scalar>)
    ensures
        powers@.len() == count,
        forall|i: int| 0 <= i < count ==> (#[trigger] powers@[i])@ == pow_mod(tau@, i as nat),
{
    let chunk: usize = chunk_len(count, workers);
    let chunks: usize = chunk_count(count, chunk);
    let fill = |k: usize| -> (part: Vec<Scalar>)
        requires
            k < chunks,
        ensures
            part_holds_powers(
                part@,
                tau@,
                chunk_start(k as nat, chunk as nat),
                chunk_end(k as nat, chunk as nat, count as nat),
            ),
        {
            proof {
                lemma_chunk_bounds(k as nat, chunk as nat, count as nat);
            }
            let start: usize = k * chunk;
            let len: usize = if count - start < chunk {
                count - start
            } else {
                chunk
            };
            powers_from(tau, start, len)
        };
    let parts = par_map(chunks, fill);
    let mut powers: Vec<Scalar> = Vec::new();
    proof {
        lemma_no_chunk(chunk as nat, count as nat);
        assert forall|k: int| 0 <= k < chunks implies part_holds_powers(
            (#[trigger] parts@[k])@,
            tau@,
            chunk_start(k as nat, chunk as nat),
            chunk_end(k as nat, chunk as nat, count as nat),
        ) by {
            assert(call_ensures(fill, (k as usize,), parts@[k as usize as int]));
        }
    }
    let mut k: usize = 0;
    while k < chunks
        invariant
            chunk > 0,
            chunks == chunk_count_of(count as nat, chunk as nat),
            k <= chunks,
            parts@.len() == chunks,
            forall|i: int|
                0 <= i < chunks ==> part_holds_powers(
                    (#[trigger] parts@[i])@,
                    tau@,
                    chunk_start(i as nat, chunk as nat),
                    chunk_end(i as nat, chunk as nat, count as nat),
                ),
            powers@.len() == (if k == chunks {
                count as nat
            } else {
                chunk_start(k as nat, chunk as nat)
            }),
            forall|i: int|
                0 <= i < powers@.len() ==> (#[trigger] powers@[i])@ == pow_mod(tau@, i as nat),
        decreases chunks - k,
    {
        proof {
            lemma_chunk_bounds(k as nat, chunk as nat, count as nat);
        }
        let part = &parts[k];
        let ghost base = powers@.len();
        assert(part_holds_powers(
            parts@[k as int]@,
            tau@,
            chunk_start(k as nat, chunk as nat),
            chunk_end(k as nat, chunk as nat, count as nat),
        ));
        let mut j: usize = 0;
        while j < part.len()
            invariant
                j <= part@.len(),
                base == chunk_start(k as nat, chunk as nat),
                powers@.len() == base + j,
                forall|i: int|
                    0 <= i < part@.len() ==> (#[trigger] part@[i])@ == pow_mod(
                        tau@,
                        (base + i) as nat,
                    ),
                forall|i: int|
                    0 <= i < powers@.len() ==> (#[trigger] powers@[i])@ == pow_mod(tau@, i as nat),
            decreases part@.len() - j,
        {
            powers.push(part[j].duplicate());
            j += 1;
        }
        k += 1;
    }
    powers
}

} // verus!
