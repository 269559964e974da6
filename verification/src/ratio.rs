//! The pairing-ratio kernel: `same_ratio` compares two ratios across the
//! groups with one pairing equation, `merge_pairs` folds many pairs into one
//! by a random linear combination, and `power_pairs` applies that to the
//! neighbours in a vector.

use crate::bytes::same_bytes;
use crate::curve::{
    encodings, identity_point, pairing, pairing_value, point_add, point_mul, CurvePoint, G1Point,
    G2Point, GroupId,
};
use crate::parallel::{
    available_workers, chunk_count, chunk_count_of, chunk_end, chunk_len, chunk_len_of,
    chunk_start, lemma_chunk_bounds, lemma_chunk_len_positive, lemma_no_chunk, par_map,
};
use crate::scalar::{random_scalars, values, Scalar};
use vstd::prelude::*;

verus! {

/// The pairing `e(p, q)`: the neutral element of the target group, which
/// `None` stands for, where `p` or `q` is the neutral element of its group,
/// and else the value that the pairing of the curve gives.
pub open spec fn paired(p: Seq<u8>, q: Seq<u8>) -> Option<Seq<u8>> {
    if p == identity_point(GroupId::G1) || q == identity_point(GroupId::G2) {
        None
    } else {
        Some(pairing_value(p, q))
    }
}

/// Whether the pairs `(a1, b1)` of G1 and `(a2, b2)` of G2 have the same
/// ratio: `e(a1, b2) = e(b1, a2)`.
pub open spec fn ratios_agree(a1: Seq<u8>, b1: Seq<u8>, a2: Seq<u8>, b2: Seq<u8>) -> bool {
    paired(a1, b2) == paired(b1, a2)
}

/// The points added up from the neutral element, in the order of the
/// indices.
pub open spec fn total(group: GroupId, parts: Seq<Seq<u8>>) -> Seq<u8>
    decreases parts.len(),
{
    if parts.len() == 0 {
        identity_point(group)
    } else {
        point_add(group, total(group, parts.drop_last()), parts.last())
    }
}

/// The multiples `rho[i] * v[i]`.
pub open spec fn multiples(group: GroupId, v: Seq<Seq<u8>>, rho: Seq<nat>) -> Seq<Seq<u8>> {
    Seq::new(v.len(), |i: int| point_mul(group, v[i], rho[i]))
}

/// The linear combination `sum of rho[i] * v[i]` over the indices
/// `start..end`.
pub open spec fn weighted_sum(
    group: GroupId,
    v: Seq<Seq<u8>>,
    rho: Seq<nat>,
    start: int,
    end: int,
) -> Seq<u8> {
    total(group, multiples(group, v, rho).subrange(start, end))
}

/// The linear combinations over each chunk of length `chunk`.
pub open spec fn chunk_sums(group: GroupId, v: Seq<Seq<u8>>, rho: Seq<nat>, chunk: nat) -> Seq<
    Seq<u8>,
> {
    Seq::new(
        chunk_count_of(v.len(), chunk),
        |k: int|
            weighted_sum(
                group,
                v,
                rho,
                chunk_start(k as nat, chunk) as int,
                chunk_end(k as nat, chunk, v.len()) as int,
            ),
    )
}

/// The linear combination `sum of rho[i] * v[i]`, taken chunk by chunk: the
/// sum of the sums over the chunks.
pub open spec fn merged(group: GroupId, v: Seq<Seq<u8>>, rho: Seq<nat>, chunk: nat) -> Seq<u8> {
    total(group, chunk_sums(group, v, rho, chunk))
}

/// Whether `pair` is a linear combination of `v1` and of `v2` with the same
/// coefficients, taken chunk by chunk with chunks of some length.
pub open spec fn is_merge_of(
    group: GroupId,
    v1: Seq<Seq<u8>>,
    v2: Seq<Seq<u8>>,
    pair: (Seq<u8>, Seq<u8>),
) -> bool {
    exists|rho: Seq<nat>, chunk: nat|
        #![trigger merged(group, v1, rho, chunk)]
        {
            &&& rho.len() == v1.len()
            &&& chunk >= 1
            &&& pair.0 == merged(group, v1, rho, chunk)
            &&& pair.1 == merged(group, v2, rho, chunk)
        }
}

/// Checks whether the pairs have the same ratio.
pub fn same_ratio(g1: (&G1Point, &G1Point), g2: (&G2Point, &G2Point)) -> (same: bool)
    ensures
        same == ratios_agree(g1.0@, g1.1@, g2.0@, g2.1@),
{
    match (pairing(g1.0, g2.1), pairing(g1.1, g2.0)) {
        (Some(left), Some(right)) => same_bytes(left.as_slice(), right.as_slice()),
        (None, None) => true,
        _ => false,
    }
}

/// The linear combination of `v[start..end]` with the coefficients
/// `rho[start..end]`.
pub fn weighted_sum_of<G: CurvePoint>(v: &[G], rho: &[Scalar], start: usize, end: usize) -> (sum: G)
    requires
        start <= end <= v@.len(),
        v@.len() == rho@.len(),
    ensures
        sum.encoding() == weighted_sum(
            G::group(),
            encodings(v@),
            values(rho@),
            start as int,
            end as int,
        ),
{
    let ghost terms = multiples(G::group(), encodings(v@), values(rho@));
    let mut sum = G::identity();
    let mut i: usize = start;
    assert(terms.subrange(start as int, start as int) =~= Seq::<Seq<u8>>::empty());
    while i < end
        invariant
            start <= i <= end <= v@.len(),
            v@.len() == rho@.len(),
            terms == multiples(G::group(), encodings(v@), values(rho@)),
            sum.encoding() == total(G::group(), terms.subrange(start as int, i as int)),
        decreases end - i,
    {
        let term = v[i].scale(&rho[i]);
        sum = sum.plus(&term);
        proof {
            let next = terms.subrange(start as int, i + 1);
            assert(next.drop_last() =~= terms.subrange(start as int, i as int));
            assert(next.last() == term.encoding());
        }
        i += 1;
    }
    sum
}

/// The linear combinations of `v1` and of `v2` with the coefficients `rho`.
/// The indices are cut into one chunk per worker; the chunks are summed on
/// their own, and their sums are added up in order.
pub fn merge_pairs_with<G: CurvePoint>(v1: &[G], v2: &[G], rho: &[Scalar], workers: usize) -> (pair:
    (G, G))
    requires
        v1@.len() == v2@.len(),
        rho@.len() == v1@.len(),
    ensures
        pair.0.encoding() == merged(
            G::group(),
            encodings(v1@),
            values(rho@),
            chunk_len_of(v1@.len(), workers as nat),
        ),
        pair.1.encoding() == merged(
            G::group(),
            encodings(v2@),
            values(rho@),
            chunk_len_of(v1@.len(), workers as nat),
        ),
{
    let n: usize = v1.len();
    let chunk: usize = chunk_len(n, workers);
    let chunks: usize = chunk_count(n, chunk);
    let ghost sums1 = chunk_sums(G::group(), encodings(v1@), values(rho@), chunk as nat);
    let ghost sums2 = chunk_sums(G::group(), encodings(v2@), values(rho@), chunk as nat);
    let work = |k: usize| -> (part: (G, G))
        requires
            k < chunks,
        ensures
            part.0.encoding() == chunk_sums(
                G::group(),
                encodings(v1@),
                values(rho@),
                chunk as nat,
            )[k as int],
            part.1.encoding() == chunk_sums(
                G::group(),
                encodings(v2@),
                values(rho@),
                chunk as nat,
            )[k as int],
        {
            proof {
                lemma_chunk_bounds(k as nat, chunk as nat, n as nat);
            }
            let start: usize = k * chunk;
            let end: usize = if n - start < chunk {
                n
            } else {
                start + chunk
            };
            (weighted_sum_of(v1, rho, start, end), weighted_sum_of(v2, rho, start, end))
        };
    let parts = par_map(chunks, work);
    proof {
        assert forall|k: int| 0 <= k < chunks implies (#[trigger] parts@[k]).0.encoding()
            == sums1[k] && parts@[k].1.encoding() == sums2[k] by {
            assert(call_ensures(work, (k as usize,), parts@[k as usize as int]));
        }
    }
    let mut s = G::identity();
    let mut sx = G::identity();
    let mut k: usize = 0;
    assert(sums1.take(0) =~= Seq::<Seq<u8>>::empty());
    assert(sums2.take(0) =~= Seq::<Seq<u8>>::empty());
    while k < chunks
        invariant
            k <= chunks,
            parts@.len() == chunks,
            sums1.len() == chunks,
            sums2.len() == chunks,
            forall|i: int|
                0 <= i < chunks ==> (#[trigger] parts@[i]).0.encoding() == sums1[i]
                    && parts@[i].1.encoding() == sums2[i],
            s.encoding() == total(G::group(), sums1.take(k as int)),
            sx.encoding() == total(G::group(), sums2.take(k as int)),
        decreases chunks - k,
    {
        s = s.plus(&parts[k].0);
        sx = sx.plus(&parts[k].1);
        proof {
            assert(sums1.take(k + 1).drop_last() =~= sums1.take(k as int));
            assert(sums2.take(k + 1).drop_last() =~= sums2.take(k as int));
        }
        k += 1;
    }
    assert(sums1.take(chunks as int) =~= sums1);
    assert(sums2.take(chunks as int) =~= sums2);
    (s, sx)
}

/// A random linear combination over `v1` and `v2`: the pair
/// `(sum of rho[i] * v1[i], sum of rho[i] * v2[i])` for coefficients `rho`
/// drawn afresh. Of empty vectors it is the pair of neutral elements.
pub fn merge_pairs<G: CurvePoint>(v1: &[G], v2: &[G]) -> (pair: (G, G))
    requires
        v1@.len() == v2@.len(),
    ensures
        is_merge_of(
            G::group(),
            encodings(v1@),
            encodings(v2@),
            (pair.0.encoding(), pair.1.encoding()),
        ),
        v1@.len() == 0 ==> pair.0.encoding() == identity_point(G::group()) && pair.1.encoding()
            == identity_point(G::group()),
{
    let rho = random_scalars(v1.len());
    let workers: usize = available_workers();
    let pair = merge_pairs_with(v1, v2, rho.as_slice(), workers);
    proof {
        let chunk = chunk_len_of(v1@.len(), workers as nat);
        lemma_chunk_len_positive(v1@.len(), workers as nat);
        assert(values(rho@).len() == encodings(v1@).len());
        assert(pair.0.encoding() == merged(G::group(), encodings(v1@), values(rho@), chunk));
        if v1@.len() == 0 {
            lemma_merge_of_nothing(
                G::group(),
                encodings(v1@),
                encodings(v2@),
                (pair.0.encoding(), pair.1.encoding()),
            );
        }
    }
    pair
}

/// All of `v` but its last point; nothing of an empty `v`.
pub open spec fn all_but_last(v: Seq<Seq<u8>>) -> Seq<Seq<u8>> {
    if v.len() == 0 {
        v
    } else {
        v.drop_last()
    }
}

/// All of `v` but its first point; nothing of an empty `v`.
pub open spec fn all_but_first(v: Seq<Seq<u8>>) -> Seq<Seq<u8>> {
    if v.len() == 0 {
        v
    } else {
        v.drop_first()
    }
}

/// The pair of linear combinations of `v[0..n-1]` and of `v[1..n]` with the
/// coefficients `rho`, which has the ratio `x` where `v` is of the form
/// `[p, x*p, x^2*p, ...]`.
pub fn power_pairs_with<G: CurvePoint>(v: &[G], rho: &[Scalar], workers: usize) -> (pair: (G, G))
    requires
        rho@.len() == all_but_last(encodings(v@)).len(),
    ensures
        pair.0.encoding() == merged(
            G::group(),
            all_but_last(encodings(v@)),
            values(rho@),
            chunk_len_of(rho@.len(), workers as nat),
        ),
        pair.1.encoding() == merged(
            G::group(),
            all_but_first(encodings(v@)),
            values(rho@),
            chunk_len_of(rho@.len(), workers as nat),
        ),
{
    let n: usize = v.len();
    if n == 0 {
        merge_pairs_with(v, v, rho, workers)
    } else {
        let heads = &v[0..n - 1];
        let tails = &v[1..n];
        assert(encodings(heads@) =~= all_but_last(encodings(v@)));
        assert(encodings(tails@) =~= all_but_first(encodings(v@)));
        merge_pairs_with(heads, tails, rho, workers)
    }
}

/// A random linear combination of the neighbours in `v`: `merge_pairs` of
/// `v[0..n-1]` and `v[1..n]`. Of a vector of fewer than two points it is
/// the pair of neutral elements.
pub fn power_pairs<G: CurvePoint>(v: &[G]) -> (pair: (G, G))
    ensures
        is_merge_of(
            G::group(),
            all_but_last(encodings(v@)),
            all_but_first(encodings(v@)),
            (pair.0.encoding(), pair.1.encoding()),
        ),
        v@.len() <= 1 ==> pair.0.encoding() == identity_point(G::group()) && pair.1.encoding()
            == identity_point(G::group()),
{
    let n: usize = v.len();
    if n == 0 {
        merge_pairs(v, v)
    } else {
        let heads = &v[0..n - 1];
        let tails = &v[1..n];
        assert(encodings(heads@) =~= all_but_last(encodings(v@)));
        assert(encodings(tails@) =~= all_but_first(encodings(v@)));
        merge_pairs(heads, tails)
    }
}

/// A linear combination of no points is the neutral element, whatever the
/// coefficients and the chunks.
pub proof fn lemma_merge_of_nothing(
    group: GroupId,
    v1: Seq<Seq<u8>>,
    v2: Seq<Seq<u8>>,
    pair: (Seq<u8>, Seq<u8>),
)
    requires
        v1.len() == 0,
        v2.len() == 0,
        is_merge_of(group, v1, v2, pair),
    ensures
        pair == (identity_point(group), identity_point(group)),
{
    let (rho, chunk) = choose|rho: Seq<nat>, chunk: nat|
        #![trigger merged(group, v1, rho, chunk)]
        {
            &&& rho.len() == v1.len()
            &&& chunk >= 1
            &&& pair.0 == merged(group, v1, rho, chunk)
            &&& pair.1 == merged(group, v2, rho, chunk)
        };
    lemma_no_chunk(chunk, 0);
    assert(chunk_sums(group, v1, rho, chunk).len() == 0);
    assert(chunk_sums(group, v2, rho, chunk).len() == 0);
}

} // verus!
