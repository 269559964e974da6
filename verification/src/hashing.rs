//! BLAKE2b-512, and the readers and writers that keep the digest of what
//! has passed through them.

use crate::bytes::append_bytes;
use blake2::{Blake2b512, Digest};
use vstd::prelude::*;

verus! {

/// Length of a digest.
pub const HASH_BYTES: usize = 64;

/// The BLAKE2b-512 digest of `data`.
pub uninterp spec fn blake2b(data: Seq<u8>) -> Seq<u8>;

/// `Digest::digest` of `Blake2b512`: the 64-byte digest of the whole of
/// `data`, which is named by `blake2b`.
#[verifier::external_body]
fn blake2b_512(data: &[u8]) -> (hash: [u8; 64])
    ensures
        hash@ == blake2b(data@),
{
    Blake2b512::digest(data).into()
}

/// The BLAKE2b-512 digest of `data`.
pub fn hash_of(data: &[u8]) -> (hash: [u8; 64])
    ensures
        hash@ == blake2b(data@),
{
    blake2b_512(data)
}

/// The digest of the empty input.
pub fn blank_hash() -> (hash: [u8; 64])
    ensures
        hash@ == blake2b(Seq::<u8>::empty()),
{
    let nothing: Vec<u8> = Vec::new();
    blake2b_512(nothing.as_slice())
}

/// A reader over a byte string that keeps track of what has been read, to
/// give its digest in the end.
#[derive(Debug)]
pub struct HashReader {
    source: Vec<u8>,
    position: usize,
}

impl HashReader {
    #[verifier::type_invariant]
    spec fn inside(self) -> bool {
        self.position <= self.source@.len()
    }

    /// The bytes read so far.
    pub closed spec fn consumed(&self) -> Seq<u8> {
        self.source@.take(self.position as int)
    }

    /// The bytes not read yet.
    pub closed spec fn remaining(&self) -> Seq<u8> {
        self.source@.skip(self.position as int)
    }

    /// A reader at the start of `source`.
    pub fn new(source: Vec<u8>) -> (reader: HashReader)
        ensures
            reader.consumed() == Seq::<u8>::empty(),
            reader.remaining() == source@,
    {
        let reader = HashReader { source, position: 0 };
        assert(reader.source@.take(0) =~= Seq::<u8>::empty());
        assert(reader.source@.skip(0) =~= source@);
        reader
    }

    /// Reads the next bytes, as many as `limit` allows and as are left, and
    /// counts them as read.
    pub fn read(&mut self, limit: usize) -> (bytes: Vec<u8>)
        ensures
            bytes@.len() == if limit <= old(self).remaining().len() {
                limit as nat
            } else {
                old(self).remaining().len()
            },
            bytes@ == old(self).remaining().take(bytes@.len() as int),
            final(self).consumed() == old(self).consumed() + bytes@,
            final(self).remaining() == old(self).remaining().skip(bytes@.len() as int),
    {
        proof {
            use_type_invariant(&*self);
        }
        let total: usize = self.source.len();
        let before: usize = self.position;
        let left: usize = total - before;
        let count: usize = if limit <= left {
            limit
        } else {
            left
        };
        let mut bytes: Vec<u8> = Vec::new();
        let mut i: usize = 0;
        while i < count
            invariant
                i <= count,
                before + count <= total,
                total == self.source@.len(),
                bytes@ == self.source@.subrange(before as int, before + i),
            decreases count - i,
        {
            bytes.push(self.source[before + i]);
            i += 1;
            assert(bytes@ =~= self.source@.subrange(before as int, before + i));
        }
        self.position = before + count;
        proof {
            assert(bytes@ =~= self.source@.skip(before as int).take(count as int));
            assert(self.source@.take(self.position as int) =~= self.source@.take(before as int)
                + bytes@);
            assert(self.source@.skip(self.position as int) =~= self.source@.skip(
                before as int,
            ).skip(count as int));
        }
        bytes
    }

    /// Reads what is left, at most `block` bytes at a time, and writes it to
    /// `writer`.
    pub fn copy_to(&mut self, writer: &mut HashWriter, block: usize)
        requires
            block > 0,
        ensures
            final(self).remaining() == Seq::<u8>::empty(),
            final(self).consumed() == old(self).consumed() + old(self).remaining(),
            final(writer)@ == old(writer)@ + old(self).remaining(),
    {
        let ghost read_before = self.consumed();
        let ghost rest = self.remaining();
        let ghost mut done: int = 0;
        proof {
            assert(rest.take(0) =~= Seq::<u8>::empty());
            assert(rest.skip(0) =~= rest);
        }
        loop
            invariant
                block > 0,
                0 <= done <= rest.len(),
                self.consumed() == read_before + rest.take(done),
                self.remaining() == rest.skip(done),
                writer@ == old(writer)@ + rest.take(done),
            ensures
                done == rest.len(),
            decreases rest.len() - done,
        {
            let bytes = self.read(block);
            if bytes.len() == 0 {
                break;
            }
            writer.write(bytes.as_slice());
            proof {
                let count = bytes@.len() as int;
                assert(rest.take(done) + rest.skip(done).take(count) =~= rest.take(done + count));
                assert(rest.skip(done).skip(count) =~= rest.skip(done + count));
                done = done + count;
            }
        }
        proof {
            assert(rest.take(done) =~= rest);
            assert(rest.skip(done) =~= Seq::<u8>::empty());
        }
    }

    /// Ends the reading and gives the digest of what was read.
    pub fn into_hash(self) -> (hash: [u8; 64])
        ensures
            hash@ == blake2b(self.consumed()),
    {
        proof {
            use_type_invariant(&self);
        }
        let read = vstd::slice::slice_subrange(self.source.as_slice(), 0, self.position);
        assert(read@ =~= self.consumed());
        blake2b_512(read)
    }
}

/// A writer into a byte string that keeps track of what has been written,
/// to give its digest in the end.
#[derive(Debug)]
pub struct HashWriter {
    sink: Vec<u8>,
}

impl View for HashWriter {
    type V = Seq<u8>;

    /// The bytes written so far.
    closed spec fn view(&self) -> Seq<u8> {
        self.sink@
    }
}

impl HashWriter {
    /// A writer that has written nothing yet.
    pub fn new() -> (writer: HashWriter)
        ensures
            writer@ == Seq::<u8>::empty(),
    {
        HashWriter { sink: Vec::new() }
    }

    /// Writes all of `buf` and returns its length.
    pub fn write(&mut self, buf: &[u8]) -> (count: usize)
        ensures
            count == buf@.len(),
            final(self)@ == old(self)@ + buf@,
    {
        append_bytes(&mut self.sink, buf);
        buf.len()
    }

    /// Nothing is held back, so there is nothing to flush.
    pub fn flush(&mut self)
        ensures
            final(self)@ == old(self)@,
    {
    }

    /// The bytes written so far.
    pub fn written(&self) -> (bytes: &Vec<u8>)
        ensures
            bytes@ == self@,
    {
        &self.sink
    }

    /// Ends the writing and gives the digest of what was written.
    pub fn into_hash(self) -> (hash: [u8; 64])
        ensures
            hash@ == blake2b(self@),
    {
        blake2b_512(self.sink.as_slice())
    }
}

/// The lower-case hexadecimal digit of a value below sixteen, in ASCII.
pub open spec fn hex_digit(nibble: u8) -> u8 {
    if nibble < 10 {
        (48 + nibble) as u8
    } else {
        (87 + nibble) as u8
    }
}

/// The two hexadecimal digits of a byte.
pub open spec fn hex_of(byte: u8) -> Seq<u8> {
    seq![hex_digit(byte / 16), hex_digit(byte % 16)]
}

/// Four bytes of `hash` from `start` on in hexadecimal, and a space.
pub open spec fn section_text(hash: Seq<u8>, start: int) -> Seq<u8> {
    hex_of(hash[start]) + hex_of(hash[start + 1]) + hex_of(hash[start + 2]) + hex_of(
        hash[start + 3],
    ) + seq![32u8]
}

/// A tab, four sections of `hash` from `start` on, and a line feed.
pub open spec fn row_text(hash: Seq<u8>, start: int) -> Seq<u8> {
    seq![9u8] + section_text(hash, start) + section_text(hash, start + 4) + section_text(
        hash,
        start + 8,
    ) + section_text(hash, start + 12) + seq![10u8]
}

/// A digest as it is shown to the participant: four rows of four groups of
/// four bytes in hexadecimal.
pub open spec fn hash_text(hash: Seq<u8>) -> Seq<u8> {
    row_text(hash, 0) + row_text(hash, 16) + row_text(hash, 32) + row_text(hash, 48)
}

fn push_hex(out: &mut Vec<u8>, byte: u8)
    ensures
        final(out)@ == old(out)@ + hex_of(byte),
{
    let high: u8 = byte / 16;
    let low: u8 = byte % 16;
    out.push(if high < 10 {
        48 + high
    } else {
        87 + high
    });
    out.push(if low < 10 {
        48 + low
    } else {
        87 + low
    });
    assert(out@ =~= old(out)@ + hex_of(byte));
}

fn push_section(out: &mut Vec<u8>, hash: &[u8; 64], start: usize)
    requires
        start + 4 <= 64,
    ensures
        final(out)@ == old(out)@ + section_text(hash@, start as int),
{
    push_hex(out, hash[start]);
    push_hex(out, hash[start + 1]);
    push_hex(out, hash[start + 2]);
    push_hex(out, hash[start + 3]);
    out.push(32);
    assert(out@ =~= old(out)@ + section_text(hash@, start as int));
}

fn push_row(out: &mut Vec<u8>, hash: &[u8; 64], start: usize)
    requires
        start + 16 <= 64,
    ensures
        final(out)@ == old(out)@ + row_text(hash@, start as int),
{
    out.push(9);
    push_section(out, hash, start);
    push_section(out, hash, start + 4);
    push_section(out, hash, start + 8);
    push_section(out, hash, start + 12);
    out.push(10);
    assert(out@ =~= old(out)@ + row_text(hash@, start as int));
}

/// The text that shows a digest to the participant, in ASCII.
pub fn display_hash(hash: &[u8; 64]) -> (text: Vec<u8>)
    ensures
        text@ == hash_text(hash@),
{
    let mut text: Vec<u8> = Vec::new();
    push_row(&mut text, hash, 0);
    push_row(&mut text, hash, 16);
    push_row(&mut text, hash, 32);
    push_row(&mut text, hash, 48);
    assert(text@ =~= hash_text(hash@));
    text
}

} // verus!
