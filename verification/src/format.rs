//! The layout of accumulators and public keys in bytes: each vector as an
//! eight-byte little-endian count followed by its points, one after the
//! other, and each point in its compressed or uncompressed encoding.

use crate::accumulator::{Accumulator, AccumulatorView, TAU_POWERS_G1_LENGTH, TAU_POWERS_LENGTH};
use crate::bytes::{append_bytes, same_bytes};
use crate::curve::{
    compressed_len, encoded_size, encodings, is_point, point_compressed, point_decompressed,
    uncompressed_len, CurvePoint, G1Point, G2Point, GroupId, G1_COORDINATE_BYTES,
    G1_UNCOMPRESSED_BYTES, G2_COORDINATE_BYTES, G2_UNCOMPRESSED_BYTES,
};
use crate::hashing::HASH_BYTES;
use crate::keys::{PublicKey, PublicKeyView};
use vstd::bytes::{lemma_auto_spec_u64_to_from_le_bytes, spec_u64_to_le_bytes, u64_to_le_bytes};
use vstd::prelude::*;

verus! {

/// Length of the count in front of a vector.
pub const COUNT_BYTES: usize = 8;

/// The count in front of a vector of `count` points.
pub open spec fn count_bytes(count: nat) -> Seq<u8> {
    spec_u64_to_le_bytes(count as u64)
}

/// The byte strings `parts`, one after the other.
pub open spec fn concat(parts: Seq<Seq<u8>>) -> Seq<u8>
    decreases parts.len(),
{
    if parts.len() == 0 {
        Seq::<u8>::empty()
    } else {
        concat(parts.drop_last()) + parts.last()
    }
}

/// A vector of encoded points on disk: their number, then the points.
pub open spec fn vector_bytes(points: Seq<Seq<u8>>) -> Seq<u8> {
    count_bytes(points.len()) + concat(points)
}

/// The `i`-th of the pieces of `size` bytes that follow `offset`.
pub open spec fn piece(bytes: Seq<u8>, offset: int, size: int, i: int) -> Seq<u8> {
    bytes.subrange(offset + i * size, offset + i * size + size)
}

/// The first `count` pieces of `size` bytes that follow `offset`.
pub open spec fn pieces(bytes: Seq<u8>, offset: int, size: int, count: nat) -> Seq<Seq<u8>> {
    Seq::new(count, |i: int| piece(bytes, offset, size, i))
}

/// Whether every one of `parts` is `size` bytes long.
pub open spec fn all_of_size(parts: Seq<Seq<u8>>, size: nat) -> bool {
    forall|i: int| 0 <= i < parts.len() ==> (#[trigger] parts[i]).len() == size
}

/// Strings of one size, put one after the other, take their number times
/// that size.
pub proof fn lemma_concat_len(parts: Seq<Seq<u8>>, size: nat)
    requires
        all_of_size(parts, size),
    ensures
        concat(parts).len() == parts.len() * size,
    decreases parts.len(),
{
    if parts.len() == 0 {
        assert(parts.len() * size == 0) by (nonlinear_arith)
            requires
                parts.len() == 0,
        ;
    } else {
        let front = parts.drop_last();
        lemma_concat_len(front, size);
        assert(parts.len() * size == front.len() * size + size) by (nonlinear_arith)
            requires
                parts.len() == front.len() + 1,
        ;
    }
}

/// Strings of one size, put one after the other, are found again as the
/// pieces of that size.
pub proof fn lemma_concat_piece(parts: Seq<Seq<u8>>, size: nat, i: int)
    requires
        all_of_size(parts, size),
        0 <= i < parts.len(),
    ensures
        piece(concat(parts), 0, size as int, i) == parts[i],
        i * size + size <= concat(parts).len(),
    decreases parts.len(),
{
    let front = parts.drop_last();
    lemma_concat_len(front, size);
    lemma_concat_len(parts, size);
    assert(parts.len() * size == front.len() * size + size) by (nonlinear_arith)
        requires
            parts.len() == front.len() + 1,
    ;
    if i == parts.len() - 1 {
        assert(piece(concat(parts), 0, size as int, i) =~= parts[i]);
    } else {
        lemma_concat_piece(front, size, i);
        assert(i * size + size <= front.len() * size) by (nonlinear_arith)
            requires
                0 <= i < front.len(),
        ;
        assert(piece(concat(parts), 0, size as int, i) =~= piece(
            concat(front),
            0,
            size as int,
            i,
        ));
    }
}

/// Strings of one size, put one after the other behind `head`, are found
/// again as the pieces behind `head`, whatever follows them.
pub proof fn lemma_pieces_of_concat(head: Seq<u8>, parts: Seq<Seq<u8>>, tail: Seq<u8>, size: nat)
    requires
        all_of_size(parts, size),
    ensures
        pieces(head + concat(parts) + tail, head.len() as int, size as int, parts.len()) == parts,
{
    let bytes = head + concat(parts) + tail;
    let found = pieces(bytes, head.len() as int, size as int, parts.len());
    assert forall|i: int| 0 <= i < parts.len() implies found[i] == parts[i] by {
        lemma_concat_piece(parts, size, i);
        assert(found[i] =~= piece(concat(parts), 0, size as int, i));
    }
    assert(found =~= parts);
}

/// Whether every one of `points` is the canonical encoding of a point of
/// `group`.
pub open spec fn all_points(group: GroupId, points: Seq<Seq<u8>>) -> bool {
    forall|i: int| 0 <= i < points.len() ==> is_point(group, #[trigger] points[i])
}

/// Whether every one of `pieces` is a compressed encoding that the curve
/// library accepts.
pub open spec fn all_decompress(group: GroupId, pieces: Seq<Seq<u8>>) -> bool {
    forall|i: int|
        0 <= i < pieces.len() ==> (#[trigger] point_decompressed(group, pieces[i])) is Some
}

/// The points that the compressed encodings `pieces` stand for.
pub open spec fn decompressed_points(group: GroupId, pieces: Seq<Seq<u8>>) -> Seq<Seq<u8>> {
    Seq::new(pieces.len(), |i: int| point_decompressed(group, pieces[i]).unwrap())
}

/// Length of the encoding of a point, compressed or not.
pub open spec fn point_len(group: GroupId, compressed: bool) -> nat {
    if compressed {
        compressed_len(group)
    } else {
        uncompressed_len(group)
    }
}

/// The encoding of `point` as it is written, compressed or not.
pub open spec fn written_point(group: GroupId, point: Seq<u8>, compressed: bool) -> Seq<u8> {
    if compressed {
        point_compressed(group, point)
    } else {
        point
    }
}

/// The encodings of `points` as they are written, compressed or not.
pub open spec fn written_points(group: GroupId, points: Seq<Seq<u8>>, compressed: bool) -> Seq<
    Seq<u8>,
> {
    Seq::new(points.len(), |i: int| written_point(group, points[i], compressed))
}

/// Whether the pieces `pieces` can be read as points, compressed or not.
pub open spec fn readable_points(group: GroupId, pieces: Seq<Seq<u8>>, compressed: bool) -> bool {
    if compressed {
        all_decompress(group, pieces)
    } else {
        all_points(group, pieces)
    }
}

/// The points that the pieces `pieces` are read as, compressed or not.
pub open spec fn read_as_points(group: GroupId, pieces: Seq<Seq<u8>>, compressed: bool) -> Seq<
    Seq<u8>,
> {
    if compressed {
        decompressed_points(group, pieces)
    } else {
        pieces
    }
}

/// Appends the encoding of one point.
pub fn write_point<G: CurvePoint>(out: &mut Vec<u8>, point: &G, compressed: bool)
    ensures
        final(out)@ == old(out)@ + written_point(G::group(), point.encoding(), compressed),
        storable_point(G::group(), point.encoding(), compressed),
{
    if compressed {
        let bytes = point.to_compressed();
        append_bytes(out, bytes.as_slice());
    } else {
        append_bytes(out, point.as_bytes().as_slice());
    }
}

/// Appends a vector of points: their number, then their encodings.
pub fn write_points<G: CurvePoint>(out: &mut Vec<u8>, points: &Vec<G>, compressed: bool)
    ensures
        final(out)@ == old(out)@ + vector_bytes(
            written_points(G::group(), encodings(points@), compressed),
        ),
        storable_points(G::group(), encodings(points@), compressed),
{
    let ghost written = written_points(G::group(), encodings(points@), compressed);
    let count = u64_to_le_bytes(points.len() as u64);
    append_bytes(out, count.as_slice());
    let mut i: usize = 0;
    assert(written.take(0) =~= Seq::<Seq<u8>>::empty());
    while i < points.len()
        invariant
            i <= points@.len(),
            written == written_points(G::group(), encodings(points@), compressed),
            written.len() == points@.len(),
            out@ == old(out)@ + count_bytes(points@.len()) + concat(written.take(i as int)),
            forall|j: int|
                0 <= j < i ==> storable_point(
                    G::group(),
                    #[trigger] encodings(points@)[j],
                    compressed,
                ),
        decreases points@.len() - i,
    {
        write_point(out, &points[i], compressed);
        proof {
            let next = written.take(i + 1);
            assert(next.drop_last() =~= written.take(i as int));
            assert(next.last() == written[i as int]);
            assert(out@ =~= old(out)@ + count_bytes(points@.len()) + concat(next));
        }
        i += 1;
    }
    proof {
        assert(written.take(points@.len() as int) =~= written);
        assert(out@ =~= old(out)@ + vector_bytes(written));
    }
}

/// Reads `count` points of `size` bytes each that follow `offset`.
pub fn read_points<G: CurvePoint>(
    bytes: &[u8],
    offset: usize,
    size: usize,
    count: usize,
    compressed: bool,
) -> (points: Option<Vec<G>>)
    requires
        offset + count * size <= bytes@.len(),
    ensures
        points is Some <==> readable_points(
            G::group(),
            pieces(bytes@, offset as int, size as int, count as nat),
            compressed,
        ),
        points matches Some(v) ==> encodings(v@) == read_as_points(
            G::group(),
            pieces(bytes@, offset as int, size as int, count as nat),
            compressed,
        ),
{
    let ghost raw = pieces(bytes@, offset as int, size as int, count as nat);
    let mut points: Vec<G> = Vec::new();
    let mut i: usize = 0;
    let mut at: usize = offset;
    let total: usize = bytes.len();
    assert(0 * size == 0) by (nonlinear_arith);
    while i < count
        invariant
            i <= count,
            total == bytes@.len(),
            offset + count * size <= bytes@.len(),
            at == offset + i * size,
            raw == pieces(bytes@, offset as int, size as int, count as nat),
            points@.len() == i,
            forall|j: int|
                0 <= j < i ==> point_read_as(G::group(), raw[j], compressed) == Some(
                    (#[trigger] points@[j]).encoding(),
                ),
        decreases count - i,
    {
        assert((i + 1) * size == i * size + size) by (nonlinear_arith);
        assert((i + 1) * size <= count * size) by (nonlinear_arith)
            requires
                i + 1 <= count,
        ;
        let part = vstd::slice::slice_subrange(bytes, at, at + size);
        assert(part@ == raw[i as int]);
        let point = if compressed {
            G::from_compressed(part)
        } else {
            G::from_bytes(part)
        };
        match point {
            Some(p) => {
                points.push(p);
            },
            None => {
                assert(point_read_as(G::group(), raw[i as int], compressed) is None);
                return None;
            },
        }
        i += 1;
        at = at + size;
    }
    proof {
        assert forall|j: int| 0 <= j < raw.len() implies point_read_as(
            G::group(),
            #[trigger] raw[j],
            compressed,
        ) is Some by {
            assert(point_read_as(G::group(), raw[j], compressed) == Some(points@[j].encoding()));
        }
        assert(encodings(points@) =~= read_as_points(G::group(), raw, compressed));
    }
    Some(points)
}

/// What one piece is read as: the point itself where it is a canonical
/// uncompressed encoding, or what the compressed encoding stands for.
pub open spec fn point_read_as(group: GroupId, piece: Seq<u8>, compressed: bool) -> Option<
    Seq<u8>,
> {
    if compressed {
        point_decompressed(group, piece)
    } else if is_point(group, piece) {
        Some(piece)
    } else {
        None
    }
}

/// Why bytes are not read as an accumulator or a public key.
#[derive(Clone, Copy, Debug, PartialEq, Eq, Structural)]
pub enum FormatError {
    /// The bytes do not have the length of what is to be read.
    SizeMismatch,
    /// The count in front of a vector is not the length that the vector
    /// has in this ceremony.
    WrongCount,
    /// A piece is not the encoding of a point of its group.
    MalformedPoint,
    /// A point of a public key is the neutral element.
    IdentityInKey,
}

/// Where the vector of the powers of tau in G2 starts.
pub open spec fn tau_g2_at(g1: int) -> int {
    COUNT_BYTES + TAU_POWERS_G1_LENGTH * g1
}

/// Where the vector of the powers of tau times alpha starts.
pub open spec fn alpha_at(g1: int, g2: int) -> int {
    tau_g2_at(g1) + COUNT_BYTES + TAU_POWERS_LENGTH * g2
}

/// Where the vector of the powers of tau times beta starts.
pub open spec fn beta_at(g1: int, g2: int) -> int {
    alpha_at(g1, g2) + COUNT_BYTES + TAU_POWERS_LENGTH * g1
}

/// Where beta in G2 starts.
pub open spec fn beta_g2_at(g1: int, g2: int) -> int {
    beta_at(g1, g2) + COUNT_BYTES + TAU_POWERS_LENGTH * g1
}

/// Length of an accumulator whose G1 points take `g1` bytes and whose G2
/// points take `g2` bytes.
pub open spec fn accumulator_len(g1: int, g2: int) -> int {
    beta_g2_at(g1, g2) + g2
}

/// Length of an accumulator on disk, compressed or not.
pub open spec fn accumulator_size(compressed: bool) -> int {
    accumulator_len(
        point_len(GroupId::G1, compressed) as int,
        point_len(GroupId::G2, compressed) as int,
    )
}

/// An accumulator on disk: its four vectors and beta in G2, in this order.
pub open spec fn accumulator_bytes(acc: AccumulatorView, compressed: bool) -> Seq<u8> {
    vector_bytes(written_points(GroupId::G1, acc.tau_powers_g1, compressed)) + vector_bytes(
        written_points(GroupId::G2, acc.tau_powers_g2, compressed),
    ) + vector_bytes(written_points(GroupId::G1, acc.alpha_tau_powers_g1, compressed))
        + vector_bytes(written_points(GroupId::G1, acc.beta_tau_powers_g1, compressed))
        + written_point(GroupId::G2, acc.beta_g2, compressed)
}

/// The pieces that `bytes` hold where the points of an accumulator stand.
pub open spec fn accumulator_pieces(bytes: Seq<u8>, compressed: bool) -> AccumulatorView {
    let g1 = point_len(GroupId::G1, compressed) as int;
    let g2 = point_len(GroupId::G2, compressed) as int;
    AccumulatorView {
        tau_powers_g1: pieces(bytes, COUNT_BYTES as int, g1, TAU_POWERS_G1_LENGTH as nat),
        tau_powers_g2: pieces(
            bytes,
            tau_g2_at(g1) + COUNT_BYTES,
            g2,
            TAU_POWERS_LENGTH as nat,
        ),
        alpha_tau_powers_g1: pieces(
            bytes,
            alpha_at(g1, g2) + COUNT_BYTES,
            g1,
            TAU_POWERS_LENGTH as nat,
        ),
        beta_tau_powers_g1: pieces(
            bytes,
            beta_at(g1, g2) + COUNT_BYTES,
            g1,
            TAU_POWERS_LENGTH as nat,
        ),
        beta_g2: piece(bytes, beta_g2_at(g1, g2), g2, 0),
    }
}

/// Whether `bytes` hold the counts of the ceremony where the counts of an
/// accumulator stand.
pub open spec fn counts_match(bytes: Seq<u8>, compressed: bool) -> bool {
    let g1 = point_len(GroupId::G1, compressed) as int;
    let g2 = point_len(GroupId::G2, compressed) as int;
    &&& bytes.subrange(0, COUNT_BYTES as int) == count_bytes(TAU_POWERS_G1_LENGTH as nat)
    &&& bytes.subrange(tau_g2_at(g1), tau_g2_at(g1) + COUNT_BYTES) == count_bytes(
        TAU_POWERS_LENGTH as nat,
    )
    &&& bytes.subrange(alpha_at(g1, g2), alpha_at(g1, g2) + COUNT_BYTES) == count_bytes(
        TAU_POWERS_LENGTH as nat,
    )
    &&& bytes.subrange(beta_at(g1, g2), beta_at(g1, g2) + COUNT_BYTES) == count_bytes(
        TAU_POWERS_LENGTH as nat,
    )
}

/// Whether every piece of `raw` can be read as a point of its group.
pub open spec fn pieces_readable(raw: AccumulatorView, compressed: bool) -> bool {
    &&& readable_points(GroupId::G1, raw.tau_powers_g1, compressed)
    &&& readable_points(GroupId::G2, raw.tau_powers_g2, compressed)
    &&& readable_points(GroupId::G1, raw.alpha_tau_powers_g1, compressed)
    &&& readable_points(GroupId::G1, raw.beta_tau_powers_g1, compressed)
    &&& point_read_as(GroupId::G2, raw.beta_g2, compressed) is Some
}

/// The accumulator that the pieces `raw` are read as.
pub open spec fn pieces_read(raw: AccumulatorView, compressed: bool) -> AccumulatorView {
    AccumulatorView {
        tau_powers_g1: read_as_points(GroupId::G1, raw.tau_powers_g1, compressed),
        tau_powers_g2: read_as_points(GroupId::G2, raw.tau_powers_g2, compressed),
        alpha_tau_powers_g1: read_as_points(GroupId::G1, raw.alpha_tau_powers_g1, compressed),
        beta_tau_powers_g1: read_as_points(GroupId::G1, raw.beta_tau_powers_g1, compressed),
        beta_g2: point_read_as(GroupId::G2, raw.beta_g2, compressed).unwrap(),
    }
}

/// What reading `bytes` as an accumulator gives: the accumulator, or the
/// first reason why there is none.
pub open spec fn accumulator_reading(bytes: Seq<u8>, compressed: bool) -> Result<
    AccumulatorView,
    FormatError,
> {
    if bytes.len() != accumulator_size(compressed) {
        Err(FormatError::SizeMismatch)
    } else if !counts_match(bytes, compressed) {
        Err(FormatError::WrongCount)
    } else if !pieces_readable(accumulator_pieces(bytes, compressed), compressed) {
        Err(FormatError::MalformedPoint)
    } else {
        Ok(pieces_read(accumulator_pieces(bytes, compressed), compressed))
    }
}

/// Whether the point `p` can be written and read back, compressed or not:
/// it is a canonical encoding, and where it is compressed, its compressed
/// encoding has the length of one and stands for `p`. Every point that the
/// library holds is of this kind.
pub open spec fn storable_point(group: GroupId, p: Seq<u8>, compressed: bool) -> bool {
    &&& is_point(group, p)
    &&& compressed ==> point_compressed(group, p).len() == compressed_len(group)
        && point_decompressed(group, point_compressed(group, p)) == Some(p)
}

/// Whether every one of `points` can be written and read back.
pub open spec fn storable_points(group: GroupId, points: Seq<Seq<u8>>, compressed: bool) -> bool {
    forall|i: int| 0 <= i < points.len() ==> storable_point(group, #[trigger] points[i], compressed)
}

/// Whether an accumulator has the lengths of the ceremony and holds points
/// that can be written and read back.
pub open spec fn storable(acc: AccumulatorView, compressed: bool) -> bool {
    &&& acc.wf()
    &&& storable_points(GroupId::G1, acc.tau_powers_g1, compressed)
    &&& storable_points(GroupId::G2, acc.tau_powers_g2, compressed)
    &&& storable_points(GroupId::G1, acc.alpha_tau_powers_g1, compressed)
    &&& storable_points(GroupId::G1, acc.beta_tau_powers_g1, compressed)
    &&& storable_point(GroupId::G2, acc.beta_g2, compressed)
}

/// A vector of points that can be written and read back is read back as
/// itself, wherever it stands.
proof fn lemma_vector_round_trip(
    group: GroupId,
    points: Seq<Seq<u8>>,
    compressed: bool,
    head: Seq<u8>,
    tail: Seq<u8>,
)
    requires
        storable_points(group, points, compressed),
        points.len() <= u64::MAX,
    ensures
        ({
            let size = point_len(group, compressed);
            let written = written_points(group, points, compressed);
            let bytes = head + vector_bytes(written) + tail;
            let found = pieces(
                bytes,
                (head.len() + COUNT_BYTES) as int,
                size as int,
                points.len(),
            );
            &&& vector_bytes(written).len() == COUNT_BYTES + points.len() * size
            &&& bytes.subrange(head.len() as int, (head.len() + COUNT_BYTES) as int)
                == count_bytes(points.len())
            &&& readable_points(group, found, compressed)
            &&& read_as_points(group, found, compressed) == points
        }),
{
    let size = point_len(group, compressed);
    let written = written_points(group, points, compressed);
    let count = count_bytes(points.len());
    let bytes = head + vector_bytes(written) + tail;
    let found = pieces(bytes, (head.len() + COUNT_BYTES) as int, size as int, points.len());
    lemma_auto_spec_u64_to_from_le_bytes();
    assert(count.len() == COUNT_BYTES);
    assert forall|i: int| 0 <= i < written.len() implies (#[trigger] written[i]).len()
        == size by {
        assert(storable_point(group, points[i], compressed));
    }
    lemma_concat_len(written, size);
    lemma_pieces_of_concat(head + count, written, tail, size);
    assert(bytes =~= (head + count) + concat(written) + tail);
    assert(found == written);
    assert(bytes.subrange(head.len() as int, (head.len() + COUNT_BYTES) as int) =~= count);
    assert forall|i: int| 0 <= i < points.len() implies point_read_as(
        group,
        #[trigger] found[i],
        compressed,
    ) == Some(points[i]) by {
        assert(storable_point(group, points[i], compressed));
    }
    assert(read_as_points(group, found, compressed) =~= points);
}

/// Writing and then reading gives the accumulator back: what is written
/// of an accumulator of the ceremony is read as that accumulator, in the
/// uncompressed and in the compressed encoding.
pub proof fn lemma_accumulator_round_trip(acc: AccumulatorView, compressed: bool)
    requires
        storable(acc, compressed),
    ensures
        accumulator_bytes(acc, compressed).len() == accumulator_size(compressed),
        accumulator_reading(accumulator_bytes(acc, compressed), compressed) == Ok::<
            AccumulatorView,
            FormatError,
        >(acc),
{
    lemma_lengths_in_numbers();
    let g1 = point_len(GroupId::G1, compressed) as int;
    let g2 = point_len(GroupId::G2, compressed) as int;
    let v1 = vector_bytes(written_points(GroupId::G1, acc.tau_powers_g1, compressed));
    let v2 = vector_bytes(written_points(GroupId::G2, acc.tau_powers_g2, compressed));
    let v3 = vector_bytes(written_points(GroupId::G1, acc.alpha_tau_powers_g1, compressed));
    let v4 = vector_bytes(written_points(GroupId::G1, acc.beta_tau_powers_g1, compressed));
    let last = written_point(GroupId::G2, acc.beta_g2, compressed);
    let bytes = accumulator_bytes(acc, compressed);
    let nothing = Seq::<u8>::empty();
    lemma_vector_round_trip(
        GroupId::G1,
        acc.tau_powers_g1,
        compressed,
        nothing,
        v2 + v3 + v4 + last,
    );
    lemma_vector_round_trip(GroupId::G2, acc.tau_powers_g2, compressed, v1, v3 + v4 + last);
    lemma_vector_round_trip(
        GroupId::G1,
        acc.alpha_tau_powers_g1,
        compressed,
        v1 + v2,
        v4 + last,
    );
    lemma_vector_round_trip(
        GroupId::G1,
        acc.beta_tau_powers_g1,
        compressed,
        v1 + v2 + v3,
        last,
    );
    assert(bytes =~= nothing + v1 + (v2 + v3 + v4 + last));
    assert(bytes =~= v1 + v2 + (v3 + v4 + last));
    assert(bytes =~= (v1 + v2) + v3 + (v4 + last));
    assert(bytes =~= (v1 + v2 + v3) + v4 + last);
    assert(last.len() == g2);
    assert(v1.len() == COUNT_BYTES + TAU_POWERS_G1_LENGTH * g1);
    assert(v2.len() == COUNT_BYTES + TAU_POWERS_LENGTH * g2);
    assert(v3.len() == COUNT_BYTES + TAU_POWERS_LENGTH * g1);
    assert(v4.len() == COUNT_BYTES + TAU_POWERS_LENGTH * g1);
    assert(bytes.len() == accumulator_size(compressed));
    let raw = accumulator_pieces(bytes, compressed);
    assert(raw.beta_g2 =~= last);
    assert(point_read_as(GroupId::G2, raw.beta_g2, compressed) == Some(acc.beta_g2));
    assert(counts_match(bytes, compressed));
    assert(pieces_readable(raw, compressed));
    assert(pieces_read(raw, compressed) == acc);
}

/// Writing, reading and writing again gives the same bytes, in the
/// compressed encoding as in the uncompressed one.
pub proof fn lemma_accumulator_rewritten(acc: AccumulatorView, compressed: bool)
    requires
        storable(acc, compressed),
    ensures
        accumulator_reading(accumulator_bytes(acc, compressed), compressed) matches Ok(read)
            && accumulator_bytes(read, compressed) == accumulator_bytes(acc, compressed),
{
    lemma_accumulator_round_trip(acc, compressed);
}

/// Appends an accumulator, compressed or not. What is appended of an
/// accumulator of the ceremony has the length of one, and is read back as
/// that accumulator.
pub fn write_accumulator(out: &mut Vec<u8>, acc: &Accumulator, compressed: bool)
    ensures
        final(out)@ == old(out)@ + accumulator_bytes(acc@, compressed),
        acc.wf() ==> storable(acc@, compressed),
        acc.wf() ==> accumulator_bytes(acc@, compressed).len() == accumulator_size(compressed),
        acc.wf() ==> accumulator_reading(accumulator_bytes(acc@, compressed), compressed) == Ok::<
            AccumulatorView,
            FormatError,
        >(acc@),
{
    write_points(out, &acc.tau_powers_g1, compressed);
    write_points(out, &acc.tau_powers_g2, compressed);
    write_points(out, &acc.alpha_tau_powers_g1, compressed);
    write_points(out, &acc.beta_tau_powers_g1, compressed);
    write_point(out, &acc.beta_g2, compressed);
    assert(final(out)@ =~= old(out)@ + accumulator_bytes(acc@, compressed));
    proof {
        if acc.wf() {
            lemma_accumulator_round_trip(acc@, compressed);
        }
    }
}

/// Whether the count of `count` points stands at `offset`.
fn count_stands_at(bytes: &[u8], offset: usize, count: usize) -> (stands: bool)
    ensures
        stands == (offset + COUNT_BYTES <= bytes@.len() && bytes@.subrange(
            offset as int,
            offset + COUNT_BYTES,
        ) == count_bytes(count as nat)),
{
    let total: usize = bytes.len();
    if total < COUNT_BYTES || offset > total - COUNT_BYTES {
        return false;
    }
    let expected = u64_to_le_bytes(count as u64);
    let found = vstd::slice::slice_subrange(bytes, offset, offset + COUNT_BYTES);
    same_bytes(found, expected.as_slice())
}

/// Reads an accumulator, compressed or not. The bytes must have the length
/// of an accumulator, hold the counts of the ceremony, and every point must
/// be one that the curve library accepts.
pub fn read_accumulator(bytes: &[u8], compressed: bool) -> (r: Result<Accumulator, FormatError>)
    ensures
        match r {
            Ok(acc) => acc.wf() && accumulator_reading(bytes@, compressed) == Ok::<
                AccumulatorView,
                FormatError,
            >(acc@),
            Err(e) => accumulator_reading(bytes@, compressed) == Err::<
                AccumulatorView,
                FormatError,
            >(e),
        },
{
    proof {
        lemma_lengths_in_numbers();
    }
    let g1: usize = encoded_size(GroupId::G1, compressed);
    let g2: usize = encoded_size(GroupId::G2, compressed);
    let tau_g2_start: usize = COUNT_BYTES + TAU_POWERS_G1_LENGTH * g1;
    let alpha_start: usize = tau_g2_start + COUNT_BYTES + TAU_POWERS_LENGTH * g2;
    let beta_start: usize = alpha_start + COUNT_BYTES + TAU_POWERS_LENGTH * g1;
    let beta_g2_start: usize = beta_start + COUNT_BYTES + TAU_POWERS_LENGTH * g1;
    if bytes.len() != beta_g2_start + g2 {
        return Err(FormatError::SizeMismatch);
    }
    if !count_stands_at(bytes, 0, TAU_POWERS_G1_LENGTH) || !count_stands_at(
        bytes,
        tau_g2_start,
        TAU_POWERS_LENGTH,
    ) || !count_stands_at(bytes, alpha_start, TAU_POWERS_LENGTH) || !count_stands_at(
        bytes,
        beta_start,
        TAU_POWERS_LENGTH,
    ) {
        return Err(FormatError::WrongCount);
    }
    let ghost raw = accumulator_pieces(bytes@, compressed);
    let tau_powers_g1 = read_points::<G1Point>(
        bytes,
        COUNT_BYTES,
        g1,
        TAU_POWERS_G1_LENGTH,
        compressed,
    );
    let tau_powers_g2 = read_points::<G2Point>(
        bytes,
        tau_g2_start + COUNT_BYTES,
        g2,
        TAU_POWERS_LENGTH,
        compressed,
    );
    let alpha_tau_powers_g1 = read_points::<G1Point>(
        bytes,
        alpha_start + COUNT_BYTES,
        g1,
        TAU_POWERS_LENGTH,
        compressed,
    );
    let beta_tau_powers_g1 = read_points::<G1Point>(
        bytes,
        beta_start + COUNT_BYTES,
        g1,
        TAU_POWERS_LENGTH,
        compressed,
    );
    let beta_piece = vstd::slice::slice_subrange(bytes, beta_g2_start, beta_g2_start + g2);
    assert(beta_piece@ == raw.beta_g2);
    let beta_g2 = if compressed {
        G2Point::from_compressed(beta_piece)
    } else {
        G2Point::from_bytes(beta_piece)
    };
    match (tau_powers_g1, tau_powers_g2, alpha_tau_powers_g1, beta_tau_powers_g1, beta_g2) {
        (
            Some(tau_powers_g1),
            Some(tau_powers_g2),
            Some(alpha_tau_powers_g1),
            Some(beta_tau_powers_g1),
            Some(beta_g2),
        ) => {
            let acc = Accumulator {
                tau_powers_g1,
                tau_powers_g2,
                alpha_tau_powers_g1,
                beta_tau_powers_g1,
                beta_g2,
            };
            Ok(acc)
        },
        _ => Err(FormatError::MalformedPoint),
    }
}

/// Number of G1 points in a public key: a pair for each secret.
pub const PUBLIC_KEY_G1_POINTS: usize = 6;

/// Number of G2 points in a public key: one for each secret.
pub const PUBLIC_KEY_G2_POINTS: usize = 3;

/// Where the G2 points of a public key start.
pub const PUBLIC_KEY_G2_AT: usize = PUBLIC_KEY_G1_POINTS * G1_UNCOMPRESSED_BYTES;

/// Length of a public key on disk.
pub const PUBLIC_KEY_BYTES: usize = PUBLIC_KEY_G2_AT + PUBLIC_KEY_G2_POINTS
    * G2_UNCOMPRESSED_BYTES;

/// Number of the points of an accumulator in G1.
pub const ACCUMULATOR_G1_POINTS: usize = TAU_POWERS_G1_LENGTH + 2 * TAU_POWERS_LENGTH;

/// Number of the points of an accumulator in G2.
pub const ACCUMULATOR_G2_POINTS: usize = TAU_POWERS_LENGTH + 1;

/// Length of a challenge: the hash, the counts of the four vectors, and
/// the uncompressed points.
pub const CHALLENGE_BYTES: usize = HASH_BYTES + 4 * COUNT_BYTES + ACCUMULATOR_G1_POINTS
    * G1_UNCOMPRESSED_BYTES + ACCUMULATOR_G2_POINTS * G2_UNCOMPRESSED_BYTES;

/// Length of a response: the hash, the counts of the four vectors, the
/// compressed points, and the public key.
pub const RESPONSE_BYTES: usize = HASH_BYTES + 4 * COUNT_BYTES + ACCUMULATOR_G1_POINTS
    * G1_COORDINATE_BYTES + ACCUMULATOR_G2_POINTS * G2_COORDINATE_BYTES + PUBLIC_KEY_BYTES;

/// The lengths of the layout in numbers, as they follow from the lengths of
/// the ceremony and of the points.
pub proof fn lemma_lengths_in_numbers()
    ensures
        TAU_POWERS_LENGTH == 32,
        TAU_POWERS_G1_LENGTH == 63,
        G1_UNCOMPRESSED_BYTES == 190,
        G2_COORDINATE_BYTES == 285,
        G2_UNCOMPRESSED_BYTES == 570,
        PUBLIC_KEY_G2_AT == 1140,
        PUBLIC_KEY_BYTES == 2850,
        CHALLENGE_BYTES == 43036,
        RESPONSE_BYTES == 24416,
{
    assert(PUBLIC_KEY_G1_POINTS * G1_UNCOMPRESSED_BYTES == 1140) by (nonlinear_arith)
        requires
            PUBLIC_KEY_G1_POINTS == 6,
            G1_UNCOMPRESSED_BYTES == 190,
    ;
    assert(PUBLIC_KEY_G2_POINTS * G2_UNCOMPRESSED_BYTES == 1710) by (nonlinear_arith)
        requires
            PUBLIC_KEY_G2_POINTS == 3,
            G2_UNCOMPRESSED_BYTES == 570,
    ;
    assert(ACCUMULATOR_G1_POINTS * G1_UNCOMPRESSED_BYTES == 24130) by (nonlinear_arith)
        requires
            ACCUMULATOR_G1_POINTS == 127,
            G1_UNCOMPRESSED_BYTES == 190,
    ;
    assert(ACCUMULATOR_G2_POINTS * G2_UNCOMPRESSED_BYTES == 18810) by (nonlinear_arith)
        requires
            ACCUMULATOR_G2_POINTS == 33,
            G2_UNCOMPRESSED_BYTES == 570,
    ;
    assert(ACCUMULATOR_G1_POINTS * G1_COORDINATE_BYTES == 12065) by (nonlinear_arith)
        requires
            ACCUMULATOR_G1_POINTS == 127,
            G1_COORDINATE_BYTES == 95,
    ;
    assert(ACCUMULATOR_G2_POINTS * G2_COORDINATE_BYTES == 9405) by (nonlinear_arith)
        requires
            ACCUMULATOR_G2_POINTS == 33,
            G2_COORDINATE_BYTES == 285,
    ;
}

/// A public key on disk: the three G1 pairs and then the three G2 points,
/// each for tau, alpha and beta in turn, all uncompressed.
pub open spec fn public_key_layout(key: PublicKeyView) -> Seq<u8> {
    key.tau_g1.0 + key.tau_g1.1 + key.alpha_g1.0 + key.alpha_g1.1 + key.beta_g1.0 + key.beta_g1.1
        + key.tau_g2 + key.alpha_g2 + key.beta_g2
}

/// The public key whose G1 points are `g1` and whose G2 points are `g2`,
/// in the order in which they stand on disk.
pub open spec fn public_key_of_points(g1: Seq<Seq<u8>>, g2: Seq<Seq<u8>>) -> PublicKeyView {
    PublicKeyView {
        tau_g1: (g1[0], g1[1]),
        alpha_g1: (g1[2], g1[3]),
        beta_g1: (g1[4], g1[5]),
        tau_g2: g2[0],
        alpha_g2: g2[1],
        beta_g2: g2[2],
    }
}

/// What reading `bytes` as a public key gives: the key, or the first
/// reason why there is none.
pub open spec fn public_key_reading(bytes: Seq<u8>) -> Result<PublicKeyView, FormatError> {
    let g1 = pieces(bytes, 0, G1_UNCOMPRESSED_BYTES as int, PUBLIC_KEY_G1_POINTS as nat);
    let g2 = pieces(
        bytes,
        PUBLIC_KEY_G2_AT as int,
        G2_UNCOMPRESSED_BYTES as int,
        PUBLIC_KEY_G2_POINTS as nat,
    );
    if bytes.len() != PUBLIC_KEY_BYTES {
        Err(FormatError::SizeMismatch)
    } else if !all_points(GroupId::G1, g1) || !all_points(GroupId::G2, g2) {
        Err(FormatError::MalformedPoint)
    } else if public_key_of_points(g1, g2).holds_identity() {
        Err(FormatError::IdentityInKey)
    } else {
        Ok(public_key_of_points(g1, g2))
    }
}

/// The G1 points of a public key, in the order in which they stand on
/// disk.
pub open spec fn key_points_g1(key: PublicKeyView) -> Seq<Seq<u8>> {
    seq![
        key.tau_g1.0,
        key.tau_g1.1,
        key.alpha_g1.0,
        key.alpha_g1.1,
        key.beta_g1.0,
        key.beta_g1.1,
    ]
}

/// The G2 points of a public key, in the order in which they stand on
/// disk.
pub open spec fn key_points_g2(key: PublicKeyView) -> Seq<Seq<u8>> {
    seq![key.tau_g2, key.alpha_g2, key.beta_g2]
}

/// Whether a public key holds points of the two groups only.
pub open spec fn key_of_points(key: PublicKeyView) -> bool {
    &&& all_points(GroupId::G1, key_points_g1(key))
    &&& all_points(GroupId::G2, key_points_g2(key))
}

/// Writing and then reading gives the public key back, unless it holds the
/// neutral element, which no key that is read may hold.
pub proof fn lemma_public_key_round_trip(key: PublicKeyView)
    requires
        key_of_points(key),
    ensures
        public_key_layout(key).len() == PUBLIC_KEY_BYTES,
        public_key_reading(public_key_layout(key)) == if key.holds_identity() {
            Err::<PublicKeyView, FormatError>(FormatError::IdentityInKey)
        } else {
            Ok::<PublicKeyView, FormatError>(key)
        },
{
    lemma_lengths_in_numbers();
    let g1 = key_points_g1(key);
    let g2 = key_points_g2(key);
    let bytes = public_key_layout(key);
    reveal_with_fuel(concat, 7);
    assert(concat(g1) =~= key.tau_g1.0 + key.tau_g1.1 + key.alpha_g1.0 + key.alpha_g1.1
        + key.beta_g1.0 + key.beta_g1.1);
    assert(concat(g2) =~= key.tau_g2 + key.alpha_g2 + key.beta_g2);
    assert forall|i: int| 0 <= i < g1.len() implies (#[trigger] g1[i]).len()
        == G1_UNCOMPRESSED_BYTES by {
        assert(is_point(GroupId::G1, g1[i]));
    }
    assert forall|i: int| 0 <= i < g2.len() implies (#[trigger] g2[i]).len()
        == G2_UNCOMPRESSED_BYTES by {
        assert(is_point(GroupId::G2, g2[i]));
    }
    lemma_concat_len(g1, G1_UNCOMPRESSED_BYTES as nat);
    lemma_concat_len(g2, G2_UNCOMPRESSED_BYTES as nat);
    let nothing = Seq::<u8>::empty();
    lemma_pieces_of_concat(nothing, g1, concat(g2), G1_UNCOMPRESSED_BYTES as nat);
    lemma_pieces_of_concat(concat(g1), g2, nothing, G2_UNCOMPRESSED_BYTES as nat);
    assert(bytes =~= nothing + concat(g1) + concat(g2));
    assert(bytes =~= concat(g1) + concat(g2) + nothing);
    assert(pieces(bytes, 0, G1_UNCOMPRESSED_BYTES as int, PUBLIC_KEY_G1_POINTS as nat) == g1);
    assert(pieces(
        bytes,
        PUBLIC_KEY_G2_AT as int,
        G2_UNCOMPRESSED_BYTES as int,
        PUBLIC_KEY_G2_POINTS as nat,
    ) == g2);
    assert(public_key_of_points(g1, g2) == key);
}

/// Appends a public key. What is appended is read back as that key, unless
/// the key holds the neutral element.
pub fn write_public_key(out: &mut Vec<u8>, key: &PublicKey)
    ensures
        final(out)@ == old(out)@ + public_key_layout(key@),
        public_key_layout(key@).len() == PUBLIC_KEY_BYTES,
        key_of_points(key@),
        public_key_reading(public_key_layout(key@)) == if key@.holds_identity() {
            Err::<PublicKeyView, FormatError>(FormatError::IdentityInKey)
        } else {
            Ok::<PublicKeyView, FormatError>(key@)
        },
{
    proof {
        lemma_lengths_in_numbers();
    }

    let tau_g1 = key.tau_g1();
    let alpha_g1 = key.alpha_g1();
    let beta_g1 = key.beta_g1();
    write_point(out, tau_g1.0, false);
    write_point(out, tau_g1.1, false);
    write_point(out, alpha_g1.0, false);
    write_point(out, alpha_g1.1, false);
    write_point(out, beta_g1.0, false);
    write_point(out, beta_g1.1, false);
    write_point(out, key.tau_g2(), false);
    write_point(out, key.alpha_g2(), false);
    write_point(out, key.beta_g2(), false);
    assert(final(out)@ =~= old(out)@ + public_key_layout(key@));
    proof {
        lemma_public_key_round_trip(key@);
    }
}

/// Reads a public key. The bytes must have the length of a public key,
/// every point must be one that the curve library accepts, and none may be
/// the neutral element.
pub fn read_public_key(bytes: &[u8]) -> (r: Result<PublicKey, FormatError>)
    ensures
        match r {
            Ok(key) => public_key_reading(bytes@) == Ok::<PublicKeyView, FormatError>(key@),
            Err(e) => public_key_reading(bytes@) == Err::<PublicKeyView, FormatError>(e),
        },
{
    proof {
        lemma_lengths_in_numbers();
    }
    if bytes.len() != PUBLIC_KEY_BYTES {
        return Err(FormatError::SizeMismatch);
    }
    let g1 = read_points::<G1Point>(
        bytes,
        0,
        G1_UNCOMPRESSED_BYTES,
        PUBLIC_KEY_G1_POINTS,
        false,
    );
    let g2 = read_points::<G2Point>(
        bytes,
        PUBLIC_KEY_G2_AT,
        G2_UNCOMPRESSED_BYTES,
        PUBLIC_KEY_G2_POINTS,
        false,
    );
    match (g1, g2) {
        (Some(g1), Some(g2)) => {
            let key = PublicKey::new(
                (g1[0].duplicate(), g1[1].duplicate()),
                (g1[2].duplicate(), g1[3].duplicate()),
                (g1[4].duplicate(), g1[5].duplicate()),
                g2[0].duplicate(),
                g2[1].duplicate(),
                g2[2].duplicate(),
            );
            assert(key@ == public_key_of_points(encodings(g1@), encodings(g2@)));
            if key.holds_identity() {
                Err(FormatError::IdentityInKey)
            } else {
                Ok(key)
            }
        },
        _ => Err(FormatError::MalformedPoint),
    }
}

/// A challenge: the hash of the previous contribution, then the
/// uncompressed accumulator.
pub open spec fn challenge_layout(previous_hash: Seq<u8>, acc: AccumulatorView) -> Seq<u8> {
    previous_hash + accumulator_bytes(acc, false)
}

/// A response: the hash of the challenge, then the compressed accumulator,
/// then the uncompressed public key.
pub open spec fn response_layout(
    challenge_hash: Seq<u8>,
    acc: AccumulatorView,
    key: PublicKeyView,
) -> Seq<u8> {
    challenge_hash + accumulator_bytes(acc, true) + public_key_layout(key)
}

/// What reading `bytes` as a challenge gives: the hash in front and the
/// accumulator, or the first reason why there is none.
pub open spec fn challenge_reading(bytes: Seq<u8>) -> Result<
    (Seq<u8>, AccumulatorView),
    FormatError,
> {
    if bytes.len() != CHALLENGE_BYTES {
        Err(FormatError::SizeMismatch)
    } else {
        match accumulator_reading(bytes.skip(64), false) {
            Ok(acc) => Ok((bytes.take(64), acc)),
            Err(e) => Err(e),
        }
    }
}

/// What reading `bytes` as a response gives: the hash in front, the
/// accumulator and the public key, or the first reason why there is none.
pub open spec fn response_reading(bytes: Seq<u8>) -> Result<
    (Seq<u8>, AccumulatorView, PublicKeyView),
    FormatError,
> {
    if bytes.len() != RESPONSE_BYTES {
        Err(FormatError::SizeMismatch)
    } else {
        match accumulator_reading(bytes.subrange(64, RESPONSE_BYTES - PUBLIC_KEY_BYTES), true) {
            Ok(acc) => match public_key_reading(
                bytes.skip(RESPONSE_BYTES - PUBLIC_KEY_BYTES),
            ) {
                Ok(key) => Ok((bytes.take(64), acc, key)),
                Err(e) => Err(e),
            },
            Err(e) => Err(e),
        }
    }
}

/// The bytes of a challenge.
pub fn write_challenge(previous_hash: &[u8; 64], acc: &Accumulator) -> (bytes: Vec<u8>)
    requires
        acc.wf(),
    ensures
        bytes@ == challenge_layout(previous_hash@, acc@),
        bytes@.len() == CHALLENGE_BYTES,
        challenge_reading(bytes@) == Ok::<(Seq<u8>, AccumulatorView), FormatError>(
            (previous_hash@, acc@),
        ),
{
    proof {
        lemma_lengths_in_numbers();
    }
    let mut bytes: Vec<u8> = Vec::new();
    append_bytes(&mut bytes, previous_hash.as_slice());
    write_accumulator(&mut bytes, acc, false);
    proof {
        assert(bytes@.skip(64) =~= accumulator_bytes(acc@, false));
        assert(bytes@.take(64) =~= previous_hash@);
    }
    bytes
}

/// Reads a challenge.
pub fn read_challenge(bytes: &[u8]) -> (r: Result<([u8; 64], Accumulator), FormatError>)
    ensures
        match r {
            Ok((hash, acc)) => acc.wf() && challenge_reading(bytes@) == Ok::<
                (Seq<u8>, AccumulatorView),
                FormatError,
            >((hash@, acc@)),
            Err(e) => challenge_reading(bytes@) == Err::<(Seq<u8>, AccumulatorView), FormatError>(
                e,
            ),
        },
{
    proof {
        lemma_lengths_in_numbers();
    }
    if bytes.len() != CHALLENGE_BYTES {
        return Err(FormatError::SizeMismatch);
    }
    let body = vstd::slice::slice_subrange(bytes, HASH_BYTES, bytes.len());
    assert(body@ =~= bytes@.skip(64));
    match read_accumulator(body, false) {
        Ok(acc) => {
            let hash = leading_hash(bytes);
            Ok((hash, acc))
        },
        Err(e) => Err(e),
    }
}

/// The first 64 bytes.
pub fn leading_hash(bytes: &[u8]) -> (hash: [u8; 64])
    requires
        bytes@.len() >= 64,
    ensures
        hash@ == bytes@.take(64),
{
    let mut hash: [u8; 64] = [0u8; 64];
    let mut i: usize = 0;
    while i < 64
        invariant
            i <= 64,
            bytes@.len() >= 64,
            forall|j: int| 0 <= j < i ==> hash@[j] == bytes@[j],
        decreases 64 - i,
    {
        hash[i] = bytes[i];
        i += 1;
    }
    assert(hash@ =~= bytes@.take(64));
    hash
}

/// The bytes of a response.
pub fn write_response(challenge_hash: &[u8; 64], acc: &Accumulator, key: &PublicKey) -> (bytes:
    Vec<u8>)
    requires
        acc.wf(),
    ensures
        bytes@ == response_layout(challenge_hash@, acc@, key@),
        bytes@.len() == RESPONSE_BYTES,
        response_reading(bytes@) == if key@.holds_identity() {
            Err::<(Seq<u8>, AccumulatorView, PublicKeyView), FormatError>(
                FormatError::IdentityInKey,
            )
        } else {
            Ok::<(Seq<u8>, AccumulatorView, PublicKeyView), FormatError>(
                (challenge_hash@, acc@, key@),
            )
        },
{
    proof {
        lemma_lengths_in_numbers();
    }
    let mut bytes: Vec<u8> = Vec::new();
    append_bytes(&mut bytes, challenge_hash.as_slice());
    write_accumulator(&mut bytes, acc, true);
    write_public_key(&mut bytes, key);
    proof {
        assert(bytes@.take(64) =~= challenge_hash@);
        assert(bytes@.subrange(64, RESPONSE_BYTES - PUBLIC_KEY_BYTES) =~= accumulator_bytes(
            acc@,
            true,
        ));
        assert(bytes@.skip(RESPONSE_BYTES - PUBLIC_KEY_BYTES) =~= public_key_layout(key@));
    }
    bytes
}

/// Reads a response.
pub fn read_response(bytes: &[u8]) -> (r: Result<([u8; 64], Accumulator, PublicKey), FormatError>)
    ensures
        match r {
            Ok((hash, acc, key)) => acc.wf() && response_reading(bytes@) == Ok::<
                (Seq<u8>, AccumulatorView, PublicKeyView),
                FormatError,
            >((hash@, acc@, key@)),
            Err(e) => response_reading(bytes@) == Err::<
                (Seq<u8>, AccumulatorView, PublicKeyView),
                FormatError,
            >(e),
        },
{
    proof {
        lemma_lengths_in_numbers();
    }
    if bytes.len() != RESPONSE_BYTES {
        return Err(FormatError::SizeMismatch);
    }
    let key_at: usize = RESPONSE_BYTES - PUBLIC_KEY_BYTES;
    let body = vstd::slice::slice_subrange(bytes, HASH_BYTES, key_at);
    let tail = vstd::slice::slice_subrange(bytes, key_at, bytes.len());
    assert(tail@ =~= bytes@.skip(RESPONSE_BYTES - PUBLIC_KEY_BYTES));
    match read_accumulator(body, true) {
        Ok(acc) => match read_public_key(tail) {
            Ok(key) => {
                let hash = leading_hash(bytes);
                Ok((hash, acc, key))
            },
            Err(e) => Err(e),
        },
        Err(e) => Err(e),
    }
}

} // verus!
