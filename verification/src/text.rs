//! Building blocks for the textual forms the library produces: decimal and
//! hexadecimal numbers, and booleans.
use vstd::prelude::*;
use vstd::string::*;
use vstd::utf8::*;

verus! {

/// The ASCII character of a decimal digit.
pub open spec fn digit_char(d: nat) -> char {
    if d == 0 { '0' }
    else if d == 1 { '1' }
    else if d == 2 { '2' }
    else if d == 3 { '3' }
    else if d == 4 { '4' }
    else if d == 5 { '5' }
    else if d == 6 { '6' }
    else if d == 7 { '7' }
    else if d == 8 { '8' }
    else { '9' }
}

/// The decimal form of a natural number, most significant digit first,
/// without leading zeros.
pub open spec fn decimal(n: nat) -> Seq<char>
    decreases n,
{
    if n < 10 {
        seq![digit_char(n)]
    } else {
        decimal(n / 10).push(digit_char(n % 10))
    }
}

/// The textual form of a boolean.
pub open spec fn bool_text(b: bool) -> Seq<char> {
    if b { seq!['t', 'r', 'u', 'e'] } else { seq!['f', 'a', 'l', 's', 'e'] }
}

fn digit_str(d: u64) -> (r: &'static str)
    requires
        d < 10,
    ensures
        r@ == seq![digit_char(d as nat)],
{
    proof {
        reveal_strlit("0");
        reveal_strlit("1");
        reveal_strlit("2");
        reveal_strlit("3");
        reveal_strlit("4");
        reveal_strlit("5");
        reveal_strlit("6");
        reveal_strlit("7");
        reveal_strlit("8");
        reveal_strlit("9");
    }
    if d == 0 { "0" }
    else if d == 1 { "1" }
    else if d == 2 { "2" }
    else if d == 3 { "3" }
    else if d == 4 { "4" }
    else if d == 5 { "5" }
    else if d == 6 { "6" }
    else if d == 7 { "7" }
    else if d == 8 { "8" }
    else { "9" }
}

/// Appends the decimal form of `n` to `s`.
pub fn push_decimal(s: &mut String, n: u64)
    ensures
        final(s)@ == old(s)@ + decimal(n as nat),
    decreases n,
{
    if n >= 10 {
        push_decimal(s, n / 10);
    }
    s.append(digit_str(n % 10));
    proof {
        assert(decimal(n as nat) == if n < 10 { seq![digit_char(n as nat)] } else {
            decimal((n / 10) as nat).push(digit_char((n % 10) as nat))
        });
    }
}

/// The decimal form of a signed number: a `-` sign before the digits of a
/// negative number.
pub open spec fn signed_decimal(i: int) -> Seq<char> {
    if i < 0 {
        seq!['-'] + decimal((-i) as nat)
    } else {
        decimal(i as nat)
    }
}

/// Appends the decimal form of the signed number `i` to `s`.
pub fn push_signed(s: &mut String, i: i64)
    ensures
        final(s)@ == old(s)@ + signed_decimal(i as int),
{
    proof {
        reveal_strlit("-");
    }
    if i < 0 {
        s.append("-");
        let m: u64 = if i == i64::MIN {
            9223372036854775808u64
        } else {
            (-i) as u64
        };
        push_decimal(s, m);
        assert(final(s)@ =~= old(s)@ + signed_decimal(i as int));
    } else {
        push_decimal(s, i as u64);
    }
}

/// Appends `true` or `false` to `s`.
pub fn push_bool(s: &mut String, b: bool)
    ensures
        final(s)@ == old(s)@ + bool_text(b),
{
    proof {
        reveal_strlit("true");
        reveal_strlit("false");
    }
    if b {
        s.append("true");
    } else {
        s.append("false");
    }
}

/// A query string of one boolean flag, such as `?recursive=true`, or nothing
/// when the flag is not set.
pub open spec fn query_flag(key: Seq<char>, flag: Option<bool>) -> Seq<char> {
    match flag {
        Some(b) => key + bool_text(b),
        None => Seq::empty(),
    }
}

/// Appends `key` and the flag's value to `s` when the flag is set.
pub fn push_query_flag(s: &mut String, key: &str, flag: Option<bool>)
    ensures
        final(s)@ == old(s)@ + query_flag(key@, flag),
{
    match flag {
        Some(b) => {
            s.append(key);
            push_bool(s, b);
            assert(final(s)@ =~= old(s)@ + query_flag(key@, flag));
        },
        None => {
            assert(s@ =~= old(s)@ + query_flag(key@, flag));
        },
    }
}

/// Text with one number in it: `a`, the decimal form of `x`, `b`.
pub open spec fn seg1(a: Seq<char>, x: nat, b: Seq<char>) -> Seq<char> {
    a + decimal(x) + b
}

/// Text with two numbers in it.
pub open spec fn seg2(a: Seq<char>, x: nat, b: Seq<char>, y: nat, c: Seq<char>) -> Seq<char> {
    seg1(a, x, b) + decimal(y) + c
}

/// Text with three numbers in it.
pub open spec fn seg3(
    a: Seq<char>,
    x: nat,
    b: Seq<char>,
    y: nat,
    c: Seq<char>,
    z: nat,
    d: Seq<char>,
) -> Seq<char> {
    seg2(a, x, b, y, c) + decimal(z) + d
}

/// Appends `a`, the decimal form of `x` and `b` to `s`.
pub fn push_seg1(s: &mut String, a: &str, x: u64, b: &str)
    ensures
        final(s)@ == old(s)@ + seg1(a@, x as nat, b@),
{
    s.append(a);
    push_decimal(s, x);
    s.append(b);
    assert(final(s)@ =~= old(s)@ + seg1(a@, x as nat, b@));
}

/// Appends text with two numbers in it to `s`.
pub fn push_seg2(s: &mut String, a: &str, x: u64, b: &str, y: u64, c: &str)
    ensures
        final(s)@ == old(s)@ + seg2(a@, x as nat, b@, y as nat, c@),
{
    push_seg1(s, a, x, b);
    push_decimal(s, y);
    s.append(c);
    assert(final(s)@ =~= old(s)@ + seg2(a@, x as nat, b@, y as nat, c@));
}

/// Appends text with three numbers in it to `s`.
pub fn push_seg3(s: &mut String, a: &str, x: u64, b: &str, y: u64, c: &str, z: u64, d: &str)
    ensures
        final(s)@ == old(s)@ + seg3(a@, x as nat, b@, y as nat, c@, z as nat, d@),
{
    push_seg2(s, a, x, b, y, c);
    push_decimal(s, z);
    s.append(d);
    assert(final(s)@ =~= old(s)@ + seg3(a@, x as nat, b@, y as nat, c@, z as nat, d@));
}

/// The text of an optional string.
pub open spec fn opt_text(o: Option<&str>) -> Option<Seq<char>> {
    match o {
        Some(v) => Some(v@),
        None => None,
    }
}

/// Whether two strings are equal, compared byte by byte.
pub fn str_eq(a: &str, b: &str) -> (r: bool)
    ensures
        r == (a@ == b@),
{
    let x = a.as_bytes();
    let y = b.as_bytes();
    proof {
        encode_utf8_decode_utf8(a@);
        encode_utf8_decode_utf8(b@);
    }
    if x.len() != y.len() {
        return false;
    }
    let mut i: usize = 0;
    while i < x.len()
        invariant
            x@ == encode_utf8(a@),
            y@ == encode_utf8(b@),
            x@.len() == y@.len(),
            i <= x@.len(),
            forall|j: int| 0 <= j < i ==> x@[j] == y@[j],
        decreases x@.len() - i,
    {
        if x[i] != y[i] {
            return false;
        }
        i = i + 1;
    }
    assert(x@ =~= y@);
    assert(decode_utf8(x@) == a@ && decode_utf8(y@) == b@);
    true
}

/// The byte with an ASCII upper-case letter turned into lower case.
pub open spec fn ascii_lower(b: u8) -> u8 {
    if 65 <= b <= 90 {
        (b + 32) as u8
    } else {
        b
    }
}

/// Whether two byte strings are equal when ASCII letters are compared
/// without regard to case.
pub open spec fn eq_ignore_ascii_case(a: Seq<u8>, b: Seq<u8>) -> bool {
    &&& a.len() == b.len()
    &&& forall|i: int| 0 <= i < a.len() ==> ascii_lower(#[trigger] a[i]) == ascii_lower(b[i])
}

/// Comparing without regard to ASCII case does not depend on the order of
/// the two strings, so a platform code compares equal to a string from
/// either side.
pub proof fn lemma_eq_ignore_ascii_case_symmetric(a: Seq<u8>, b: Seq<u8>)
    ensures
        eq_ignore_ascii_case(a, b) == eq_ignore_ascii_case(b, a),
{
    if eq_ignore_ascii_case(a, b) {
        assert forall|i: int| 0 <= i < b.len() implies ascii_lower(#[trigger] b[i]) == ascii_lower(
            a[i],
        ) by {
            assert(ascii_lower(a[i]) == ascii_lower(b[i]));
        }
    }
    if eq_ignore_ascii_case(b, a) {
        assert forall|i: int| 0 <= i < a.len() implies ascii_lower(#[trigger] a[i]) == ascii_lower(
            b[i],
        ) by {
            assert(ascii_lower(b[i]) == ascii_lower(a[i]));
        }
    }
}

fn lower_byte(b: u8) -> (r: u8)
    ensures
        r == ascii_lower(b),
{
    if 65 <= b && b <= 90 {
        b + 32
    } else {
        b
    }
}

/// Whether two strings are equal, ASCII letters compared without regard to
/// case.
pub fn str_eq_ignore_ascii_case(a: &str, b: &str) -> (r: bool)
    ensures
        r == eq_ignore_ascii_case(a.spec_bytes(), b.spec_bytes()),
{
    let x = a.as_bytes();
    let y = b.as_bytes();
    if x.len() != y.len() {
        return false;
    }
    let mut i: usize = 0;
    while i < x.len()
        invariant
            x@ == a.spec_bytes(),
            y@ == b.spec_bytes(),
            x@.len() == y@.len(),
            i <= x@.len(),
            forall|j: int| 0 <= j < i ==> ascii_lower(#[trigger] x@[j]) == ascii_lower(y@[j]),
        decreases x@.len() - i,
    {
        if lower_byte(x[i]) != lower_byte(y[i]) {
            return false;
        }
        i = i + 1;
    }
    true
}

/// The decimal form of `n` as a new string.
pub fn decimal_string(n: u64) -> (r: String)
    ensures
        r@ == decimal(n as nat),
{
    let mut s = String::new();
    push_decimal(&mut s, n);
    s
}

} // verus!
