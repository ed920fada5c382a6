//! Boundaries that separate the parts of a multipart body.
use std::collections::hash_map::{DefaultHasher, RandomState};
use std::hash::{BuildHasher, Hasher};

use vstd::prelude::*;

verus! {

/// The length of a boundary: four groups of 16 hexadecimal digits joined by
/// `-`.
pub const BOUNDARY_LEN: usize = 16 * 4 + 3;

/// The ASCII byte of a lower-case hexadecimal digit.
pub open spec fn hex_lower(d: nat) -> u8 {
    if d < 10 {
        (d + '0' as nat) as u8
    } else {
        (d - 10 + 'a' as nat) as u8
    }
}

/// The last `count` hexadecimal digits of `n`, most significant first, as
/// `{n:016x}` writes them when `count` is 16.
pub open spec fn hex_digits(n: nat, count: nat) -> Seq<u8>
    decreases count,
{
    if count == 0 {
        Seq::empty()
    } else {
        hex_digits(n / 16, (count - 1) as nat).push(hex_lower(n % 16))
    }
}

/// The boundary text made of four numbers.
pub open spec fn boundary_text(a: u64, b: u64, c: u64, d: u64) -> Seq<u8> {
    hex_digits(a as nat, 16) + seq!['-' as u8] + hex_digits(b as nat, 16) + seq!['-' as u8]
        + hex_digits(c as nat, 16) + seq!['-' as u8] + hex_digits(d as nat, 16)
}

/// `--`.
pub open spec fn dashes() -> Seq<u8> {
    seq!['-' as u8, '-' as u8]
}

/// `\r\n`.
pub open spec fn crlf() -> Seq<u8> {
    seq!['\r' as u8, '\n' as u8]
}

/// The line that opens a part: `--`, the boundary, `\r\n`.
pub open spec fn delimiter_bytes(boundary: Seq<u8>) -> Seq<u8> {
    dashes() + boundary + crlf()
}

/// The line that ends the body: `--`, the boundary, `--\r\n`.
pub open spec fn terminator_bytes(boundary: Seq<u8>) -> Seq<u8> {
    dashes() + boundary + dashes() + crlf()
}

/// A boundary of a multipart body.
pub struct Boundary {
    value: Vec<u8>,
}

impl View for Boundary {
    type V = Seq<u8>;

    closed spec fn view(&self) -> Seq<u8> {
        self.value@
    }
}

fn push_hex(v: &mut Vec<u8>, n: u64, count: u64)
    ensures
        final(v)@ == old(v)@ + hex_digits(n as nat, count as nat),
    decreases count,
{
    if count > 0 {
        push_hex(v, n / 16, count - 1);
        let d = n % 16;
        let digit = if d < 10 {
            d as u8 + ('0' as u8)
        } else {
            d as u8 - 10 + ('a' as u8)
        };
        v.push(digit);
        assert(final(v)@ =~= old(v)@ + hex_digits(n as nat, count as nat));
    }
}

proof fn lemma_hex_digits_len(n: nat, count: nat)
    ensures
        hex_digits(n, count).len() == count,
    decreases count,
{
    if count > 0 {
        lemma_hex_digits_len(n / 16, (count - 1) as nat);
    }
}

impl Boundary {
    /// The length of every boundary.
    pub const LEN: usize = BOUNDARY_LEN;

    #[verifier::type_invariant]
    spec fn has_len(self) -> bool {
        self.value@.len() == BOUNDARY_LEN
    }

    /// The boundary written from four numbers, as
    /// `{a:016x}-{b:016x}-{c:016x}-{d:016x}`.
    pub fn from_words(a: u64, b: u64, c: u64, d: u64) -> (r: Self)
        ensures
            r@ == boundary_text(a, b, c, d),
    {
        let mut v: Vec<u8> = Vec::with_capacity(BOUNDARY_LEN);
        push_hex(&mut v, a, 16);
        v.push('-' as u8);
        push_hex(&mut v, b, 16);
        v.push('-' as u8);
        push_hex(&mut v, c, 16);
        v.push('-' as u8);
        push_hex(&mut v, d, 16);
        proof {
            lemma_hex_digits_len(a as nat, 16);
            lemma_hex_digits_len(b as nat, 16);
            lemma_hex_digits_len(c as nat, 16);
            lemma_hex_digits_len(d as nat, 16);
            assert(v@ =~= boundary_text(a, b, c, d));
        }
        Boundary { value: v }
    }

    /// A boundary made of four random numbers.
    pub fn generate() -> (r: Self)
        ensures
            r@.len() == BOUNDARY_LEN,
            exists|s: u64| s != 0 && r@ == boundary_of_state(s),
    {
        let mut rng = Rng::seeded();
        let ghost s = rng@;
        let a = random(&mut rng);
        let b = random(&mut rng);
        let c = random(&mut rng);
        let d = random(&mut rng);
        let r = Self::from_words(a, b, c, d);
        proof {
            use_type_invariant(&r);
            assert(r@ == boundary_of_state(s));
        }
        r
    }

    /// Every boundary is [`Boundary::LEN`] bytes long.
    pub fn value(&self) -> (r: &[u8])
        ensures
            r@ == self@,
            r@.len() == BOUNDARY_LEN,
    {
        proof {
            use_type_invariant(self);
        }
        self.value.as_slice()
    }

    /// `--`, the boundary and `\r\n`.
    pub fn delimiter(&self) -> (r: Vec<u8>)
        ensures
            r@ == delimiter_bytes(self@),
    {
        let mut buf: Vec<u8> = Vec::new();
        buf.push('-' as u8);
        buf.push('-' as u8);
        buf.extend_from_slice(self.value.as_slice());
        buf.push('\r' as u8);
        buf.push('\n' as u8);
        assert(buf@ =~= delimiter_bytes(self@));
        buf
    }

    /// `--`, the boundary and `--\r\n`.
    pub fn terminator(&self) -> (r: Vec<u8>)
        ensures
            r@ == terminator_bytes(self@),
    {
        let mut buf: Vec<u8> = Vec::new();
        buf.push('-' as u8);
        buf.push('-' as u8);
        buf.extend_from_slice(self.value.as_slice());
        buf.push('-' as u8);
        buf.push('-' as u8);
        buf.push('\r' as u8);
        buf.push('\n' as u8);
        assert(buf@ =~= terminator_bytes(self@));
        buf
    }
}

/// One xorshift step: `n ^= n >> 12; n ^= n << 25; n ^= n >> 27`.
pub open spec fn xorshift(n: u64) -> u64 {
    let n1 = n ^ (n >> 12u64);
    let n2 = n1 ^ (n1 << 25u64);
    n2 ^ (n2 >> 27u64)
}

/// The output of the generator for a state: the state times
/// `0x2545_f491_4f6c_dd1d`, wrapped to 64 bits.
pub open spec fn scramble(n: u64) -> u64 {
    n.wrapping_mul(0x2545_f491_4f6c_dd1d)
}

/// The boundary a generator in state `s` gives: the outputs of its next four
/// steps, written as [`boundary_text`].
pub open spec fn boundary_of_state(s: u64) -> Seq<u8> {
    let s1 = xorshift(s);
    let s2 = xorshift(s1);
    let s3 = xorshift(s2);
    let s4 = xorshift(s3);
    boundary_text(scramble(s1), scramble(s2), scramble(s3), scramble(s4))
}

/// A xorshift random number generator. Its state is never zero.
pub struct Rng {
    state: u64,
}

impl View for Rng {
    type V = u64;

    closed spec fn view(&self) -> u64 {
        self.state
    }
}

proof fn lemma_xorshift_nonzero(n: u64)
    requires
        n != 0,
    ensures
        xorshift(n) != 0,
{
    let n1 = n ^ (n >> 12u64);
    assert(n != 0 ==> n ^ (n >> 12u64) != 0) by (bit_vector);
    let n2 = n1 ^ (n1 << 25u64);
    assert(n1 != 0 ==> n1 ^ (n1 << 25u64) != 0) by (bit_vector);
    assert(n2 != 0 ==> n2 ^ (n2 >> 27u64) != 0) by (bit_vector);
}

impl Rng {
    #[verifier::type_invariant]
    spec fn nonzero(self) -> bool {
        self.state != 0
    }

    /// A generator that starts from the given state, which must not be zero.
    pub fn new(seed: u64) -> (r: Self)
        requires
            seed != 0,
        ensures
            r@ == seed,
    {
        Rng { state: seed }
    }

    /// A generator seeded from the process's random hashing keys; its state
    /// is not zero, and which state it is depends on those keys alone.
    pub fn seeded() -> (r: Self)
        ensures
            r@ != 0,
    {
        Rng { state: seed() }
    }
}

/// Advances the generator one step and returns its output for the new state.
pub fn random(rng: &mut Rng) -> (r: u64)
    ensures
        final(rng)@ == xorshift(old(rng)@),
        r == scramble(final(rng)@),
{
    proof {
        use_type_invariant(&*rng);
        lemma_xorshift_nonzero(rng.state);
    }
    let mut n = rng.state;
    n = n ^ (n >> 12u64);
    n = n ^ (n << 25u64);
    n = n ^ (n >> 27u64);
    rng.state = n;
    n.wrapping_mul(0x2545_f491_4f6c_dd1d)
}

/// A seed other than zero: the first hash of the counter 1, 2, 3, ... under
/// fresh random hashing keys that is not zero.
fn seed() -> (r: u64)
    ensures
        r != 0,
{
    let state = random_state();
    let mut out: u64 = 0;
    let mut cnt: usize = 0;
    while out == 0 && cnt < usize::MAX
        decreases usize::MAX - cnt,
    {
        cnt = cnt + 1;
        let mut hasher = build_hasher(&state);
        write_usize(&mut hasher, cnt);
        out = hasher.finish();
    }
    if out == 0 {
        1
    } else {
        out
    }
}

/// `RandomState::new`: hashing keys that are random for each process.
#[verifier::external_body]
fn random_state() -> RandomState {
    RandomState::new()
}

/// `BuildHasher::build_hasher` of a `RandomState`.
#[verifier::external_body]
fn build_hasher(state: &RandomState) -> DefaultHasher {
    state.build_hasher()
}

/// `Hasher::write_usize`.
#[verifier::external_body]
fn write_usize(hasher: &mut DefaultHasher, n: usize) {
    hasher.write_usize(n)
}

/// Each hexadecimal digit is written in lower case: `0` to `9` for 0 to 9,
/// `a` to `f` for 10 to 15.
pub proof fn lemma_hex_lower(d: nat)
    requires
        d < 16,
    ensures
        d < 10 ==> hex_lower(d) == 0x30 + d,
        d >= 10 ==> hex_lower(d) == 0x61 + (d - 10),
{
}

/// Hexadecimal digits are `count` lower-case digit characters.
proof fn lemma_hex_digits_chars(n: nat, count: nat)
    ensures
        hex_digits(n, count).len() == count,
        forall|i: int|
            0 <= i < count ==> {
                let c = #[trigger] hex_digits(n, count)[i];
                (0x30 <= c <= 0x39) || (0x61 <= c <= 0x66)
            },
    decreases count,
{
    if count > 0 {
        lemma_hex_digits_chars(n / 16, (count - 1) as nat);
        let prev = hex_digits(n / 16, (count - 1) as nat);
        assert forall|i: int| 0 <= i < count implies {
            let c = #[trigger] hex_digits(n, count)[i];
            (0x30 <= c <= 0x39) || (0x61 <= c <= 0x66)
        } by {
            if i < count - 1 {
                assert(hex_digits(n, count)[i] == prev[i]);
            }
        }
    }
}

/// Every boundary is 67 bytes: four groups of 16 lower-case hexadecimal
/// digits, joined by `-` at the bytes 16, 33 and 50.
pub proof fn lemma_boundary_shape(a: u64, b: u64, c: u64, d: u64)
    ensures
        boundary_text(a, b, c, d).len() == 67,
        forall|i: int|
            0 <= i < 67 ==> {
                let x = #[trigger] boundary_text(a, b, c, d)[i];
                if i == 16 || i == 33 || i == 50 {
                    x == 0x2d
                } else {
                    (0x30 <= x <= 0x39) || (0x61 <= x <= 0x66)
                }
            },
{
    lemma_hex_digits_chars(a as nat, 16);
    lemma_hex_digits_chars(b as nat, 16);
    lemma_hex_digits_chars(c as nat, 16);
    lemma_hex_digits_chars(d as nat, 16);
    let ha = hex_digits(a as nat, 16);
    let hb = hex_digits(b as nat, 16);
    let hc = hex_digits(c as nat, 16);
    let hd = hex_digits(d as nat, 16);
    let t = boundary_text(a, b, c, d);
    assert forall|i: int| 0 <= i < 67 implies {
        let x = #[trigger] t[i];
        if i == 16 || i == 33 || i == 50 {
            x == 0x2d
        } else {
            (0x30 <= x <= 0x39) || (0x61 <= x <= 0x66)
        }
    } by {
        if i < 16 {
            assert(t[i] == ha[i]);
        } else if i == 16 || i == 33 || i == 50 {
        } else if i < 33 {
            assert(t[i] == hb[i - 17]);
        } else if i < 50 {
            assert(t[i] == hc[i - 34]);
        } else {
            assert(t[i] == hd[i - 51]);
        }
    }
}

} // verus!
