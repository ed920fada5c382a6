//! The byte ranges of the parts a file is uploaded in.
use vstd::prelude::*;

use super::MULTIPART_FILE_PART_SIZE;

verus! {

/// The number of whole chunks of `chunk` bytes in `length` bytes.
pub open spec fn whole_chunks(length: nat, chunk: nat) -> nat {
    length / chunk
}

/// The inclusive byte ranges that `length` bytes are split into, `chunk`
/// bytes each: one range per whole chunk, then one for the remainder when
/// there is one.
pub open spec fn ranges(length: nat, chunk: nat) -> Seq<(u64, u64)> {
    let count = whole_chunks(length, chunk);
    let rem = length % chunk;
    Seq::new(
        count + if rem > 0 {
            1nat
        } else {
            0nat
        },
        |i: int|
            if i < count {
                ((i * chunk) as u64, ((i + 1) * chunk - 1) as u64)
            } else {
                ((count * chunk) as u64, (count * chunk + rem - 1) as u64)
            },
    )
}

/// The byte ranges of a file of a given length, split into chunks.
///
/// ```
/// # use modio::util::upload::ByteRanges;
/// let mut iter = ByteRanges::new(14).chunks(5).into_iter();
///
/// assert_eq!(iter.next(), Some((0, 4)));
/// assert_eq!(iter.next(), Some((5, 9)));
/// assert_eq!(iter.next(), Some((10, 13)));
/// assert_eq!(iter.next(), None);
/// ```
pub struct ByteRanges {
    length: u64,
    chunk_size: u64,
}

impl View for ByteRanges {
    /// The length and the chunk size.
    type V = (u64, u64);

    closed spec fn view(&self) -> (u64, u64) {
        (self.length, self.chunk_size)
    }
}

impl ByteRanges {
    /// Creates a new `ByteRanges` for the given length, with chunks of
    /// [`MULTIPART_FILE_PART_SIZE`] bytes.
    pub fn new(length: u64) -> (r: Self)
        ensures
            r@ == (length, MULTIPART_FILE_PART_SIZE),
    {
        Self { length, chunk_size: MULTIPART_FILE_PART_SIZE }
    }

    /// Sets the chunk size.
    pub fn chunks(self, chunk_size: u64) -> (r: Self)
        ensures
            r@ == (self@.0, chunk_size),
    {
        Self { length: self.length, chunk_size }
    }

    /// The ranges, in order.
    ///
    /// The chunk size must not be zero.
    pub fn into_iter(self) -> (it: IntoIter)
        requires
            self@.1 > 0,
        ensures
            it@ == ranges(self@.0 as nat, self@.1 as nat),
    {
        let length = self.length;
        let chunk = self.chunk_size;
        let count = length / chunk;
        let rem = length % chunk;
        let ghost spec_ranges = ranges(length as nat, chunk as nat);
        proof {
            vstd::arithmetic::div_mod::lemma_fundamental_div_mod(length as int, chunk as int);
            vstd::arithmetic::mul::lemma_mul_is_commutative(count as int, chunk as int);
            assert(count * chunk + rem == length);
            assert(0 <= count * chunk) by (nonlinear_arith)
                requires
                    count >= 0,
                    chunk >= 0,
            ;
        }
        let mut out: Vec<(u64, u64)> = Vec::new();
        let mut i: u64 = 0;
        let mut start: u64 = 0;
        while i < count
            invariant
                i <= count,
                count == length / chunk,
                rem == length % chunk,
                count * chunk + rem == length,
                chunk > 0,
                start == i * chunk,
                out@.len() == i,
                spec_ranges == ranges(length as nat, chunk as nat),
                forall|j: int| 0 <= j < i ==> out@[j] == spec_ranges[j],
            decreases count - i,
        {
            proof {
                assert((i + 1) * chunk == i * chunk + chunk) by (nonlinear_arith);
                assert((i + 1) * chunk <= count * chunk) by (nonlinear_arith)
                    requires
                        i < count,
                        chunk > 0,
                ;
            }
            out.push((start, start + chunk - 1));
            start = start + chunk;
            i = i + 1;
        }
        if rem > 0 {
            proof {
                assert(start == count * chunk);
            }
            out.push((start, start + rem - 1));
        }
        assert(out@ =~= spec_ranges);
        IntoIter { ranges: out, pos: 0 }
    }
}

/// The ranges of a [`ByteRanges`], handed out one at a time.
pub struct IntoIter {
    ranges: Vec<(u64, u64)>,
    pos: usize,
}

impl View for IntoIter {
    /// The ranges that are still to come.
    type V = Seq<(u64, u64)>;

    closed spec fn view(&self) -> Seq<(u64, u64)> {
        self.ranges@.skip(self.pos as int)
    }
}

impl IntoIter {
    #[verifier::type_invariant]
    spec fn pos_in_range(self) -> bool {
        self.pos <= self.ranges@.len()
    }

    /// The next range, or `None` once all have been handed out.
    pub fn next(&mut self) -> (r: Option<(u64, u64)>)
        ensures
            old(self)@.len() == 0 ==> r is None && final(self)@ == old(self)@,
            old(self)@.len() > 0 ==> r == Some(old(self)@[0]) && final(self)@ == old(self)@.skip(1),
    {
        proof {
            use_type_invariant(&*self);
        }
        if self.pos < self.ranges.len() {
            let r = self.ranges[self.pos];
            self.pos = self.pos + 1;
            assert(self@ =~= old(self)@.skip(1));
            Some(r)
        } else {
            None
        }
    }

    /// All the ranges that are still to come, in order.
    pub fn collect(self) -> (v: Vec<(u64, u64)>)
        ensures
            v@ == self@,
    {
        proof {
            use_type_invariant(&self);
        }
        let mut v: Vec<(u64, u64)> = Vec::new();
        let mut k = self.pos;
        while k < self.ranges.len()
            invariant
                self.pos <= k <= self.ranges@.len(),
                v@ == self.ranges@.subrange(self.pos as int, k as int),
            decreases self.ranges@.len() - k,
        {
            v.push(self.ranges[k]);
            k = k + 1;
            assert(v@ =~= self.ranges@.subrange(self.pos as int, k as int));
        }
        assert(v@ =~= self@);
        v
    }
}

/// Calculates byte ranges for the given `length` and the chunk size of 50MB.
///
/// ```
/// # use modio::util::upload::byte_ranges;
/// let mut iter = byte_ranges(52 * 1024 * 1024);
///
/// assert_eq!(iter.next(), Some((0, 52428799)));
/// assert_eq!(iter.next(), Some((52428800, 54525951)));
/// assert_eq!(iter.next(), None);
/// ```
pub fn byte_ranges(length: u64) -> (it: IntoIter)
    ensures
        it@ == ranges(length as nat, MULTIPART_FILE_PART_SIZE as nat),
{
    ByteRanges::new(length).into_iter()
}

proof fn lemma_chunk_step(i: int, count: int, chunk: int)
    requires
        0 <= i < count,
        chunk > 0,
    ensures
        (i + 1) * chunk <= count * chunk,
        i * chunk + chunk == (i + 1) * chunk,
        0 <= i * chunk,
{
    assert((i + 1) * chunk <= count * chunk) by (nonlinear_arith)
        requires
            i + 1 <= count,
            chunk > 0,
    ;
    assert(i * chunk + chunk == (i + 1) * chunk) by (nonlinear_arith);
    assert(0 <= i * chunk) by (nonlinear_arith)
        requires
            i >= 0,
            chunk > 0,
    ;
}

/// The ranges cover the bytes `0..length` in order, each directly after the
/// one before, all but the last one chunk long, the last one at most a chunk
/// long, and none of them empty; there are `length / chunk` rounded up of
/// them, so an empty file has none.
pub proof fn lemma_ranges_tile(length: nat, chunk: nat)
    requires
        chunk > 0,
        length <= u64::MAX,
    ensures
        ranges(length, chunk).len() * chunk >= length,
        ranges(length, chunk).len() * chunk < length + chunk,
        length > 0 ==> ranges(length, chunk)[0].0 == 0,
        length > 0 ==> ranges(length, chunk).last().1 == length - 1,
        forall|i: int|
            0 <= i < ranges(length, chunk).len() - 1 ==> #[trigger] ranges(length, chunk)[i + 1].0
                == ranges(length, chunk)[i].1 + 1,
        forall|i: int|
            0 <= i < ranges(length, chunk).len() - 1 ==> #[trigger] ranges(length, chunk)[i].1
                - ranges(length, chunk)[i].0 + 1 == chunk,
        forall|i: int|
            0 <= i < ranges(length, chunk).len() ==> #[trigger] ranges(length, chunk)[i].0
                <= ranges(length, chunk)[i].1,
        length > 0 ==> 1 <= ranges(length, chunk).last().1 - ranges(length, chunk).last().0 + 1
            <= chunk,
{
    let count = whole_chunks(length, chunk);
    let rem = length % chunk;
    let r = ranges(length, chunk);
    vstd::arithmetic::div_mod::lemma_fundamental_div_mod(length as int, chunk as int);
    vstd::arithmetic::mul::lemma_mul_is_commutative(count as int, chunk as int);
    assert(count * chunk + rem == length);
    assert((count + 1) * chunk == count * chunk + chunk) by (nonlinear_arith);
    if rem == 0 && count > 0 {
        let k = count - 1;
        assert(k * chunk + chunk == count * chunk) by (nonlinear_arith)
            requires
                k == count - 1,
        ;
        assert(0 <= k * chunk) by (nonlinear_arith)
            requires
                k >= 0,
                chunk > 0,
        ;
        assert(r.last() == r[k]);
    }
    if rem == 0 && count == 0 {
        assert(r.len() == 0);
    }
    assert forall|i: int| 0 <= i < r.len() - 1 implies #[trigger] r[i + 1].0 == r[i].1 + 1 by {
        lemma_chunk_step(i, count as int, chunk as int);
        if i + 1 < count {
            lemma_chunk_step(i + 1, count as int, chunk as int);
        }
    }
    assert forall|i: int| 0 <= i < r.len() - 1 implies #[trigger] r[i].1 - r[i].0 + 1 == chunk by {
        lemma_chunk_step(i, count as int, chunk as int);
    }
    assert forall|i: int| 0 <= i < r.len() implies #[trigger] r[i].0 <= r[i].1 by {
        if i < count {
            lemma_chunk_step(i, count as int, chunk as int);
        }
    }
    assert(0 * chunk == 0);
}

} // verus!
