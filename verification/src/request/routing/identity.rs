//! The method and the path of a route identify it: no two routes share both.
//!
//! A path is read back through its skeleton, the path with each run of
//! digits written as one `#`: the skeleton and the method tell the route,
//! and the digits between its fixed parts tell the IDs.
use vstd::prelude::*;

use crate::method::Method;
use crate::request::routing::Route;
use crate::text::{bool_text, decimal, query_flag, seg1, seg2, seg3};
use crate::types::id::{all_digits, lemma_decimal_digits, lemma_decimal_round_trip, lemma_id_eq};

verus! {

/// An ASCII digit.
pub open spec fn is_digit(c: char) -> bool {
    '0' <= c && c <= '9'
}

/// No character of `s` is a digit.
pub open spec fn digit_free(s: Seq<char>) -> bool {
    forall|i: int| 0 <= i < s.len() ==> !is_digit(#[trigger] s[i])
}

/// `s` is empty or starts with a character that is not a digit.
pub open spec fn starts_apart(s: Seq<char>) -> bool {
    s.len() == 0 || !is_digit(s[0])
}

/// `s` with each run of digits written as one `#`, where `in_run` tells
/// that a run of digits goes on from just before `s`.
pub open spec fn skeleton_from(s: Seq<char>, in_run: bool) -> Seq<char>
    decreases s.len(),
{
    if s.len() == 0 {
        Seq::empty()
    } else if is_digit(s[0]) {
        if in_run {
            skeleton_from(s.drop_first(), true)
        } else {
            seq!['#'] + skeleton_from(s.drop_first(), true)
        }
    } else {
        seq![s[0]] + skeleton_from(s.drop_first(), false)
    }
}

/// `s` with each run of digits written as one `#`.
pub open spec fn skeleton(s: Seq<char>) -> Seq<char> {
    skeleton_from(s, false)
}

/// No character of `s` is a digit, checked from the end.
spec fn digit_free_rec(s: Seq<char>) -> bool
    decreases s.len(),
{
    s.len() == 0 || (!is_digit(s.last()) && digit_free_rec(s.drop_last()))
}

proof fn lemma_digit_free_rec(s: Seq<char>)
    requires
        digit_free_rec(s),
    ensures
        digit_free(s),
    decreases s.len(),
{
    if s.len() > 0 {
        lemma_digit_free_rec(s.drop_last());
        assert forall|i: int| 0 <= i < s.len() implies !is_digit(#[trigger] s[i]) by {
            if i < s.len() - 1 {
                assert(s[i] == s.drop_last()[i]);
            }
        }
    }
}

/// A digit-free text passes through the skeleton unchanged and ends any run
/// of digits.
proof fn lemma_skeleton_free(l: Seq<char>, t: Seq<char>, run: bool)
    requires
        digit_free(l),
        l.len() > 0,
    ensures
        skeleton_from(l + t, run) == l + skeleton_from(t, false),
    decreases l.len(),
{
    let s = l + t;
    assert(s[0] == l[0]);
    assert(s.drop_first() =~= l.drop_first() + t);
    if l.len() == 1 {
        assert(l.drop_first() + t =~= t);
        assert(l =~= seq![l[0]]);
    } else {
        assert forall|i: int| 0 <= i < l.drop_first().len() implies !is_digit(
            #[trigger] l.drop_first()[i],
        ) by {
            assert(l.drop_first()[i] == l[i + 1]);
        }
        lemma_skeleton_free(l.drop_first(), t, false);
        assert(l =~= seq![l[0]] + l.drop_first());
        assert(seq![l[0]] + (l.drop_first() + skeleton_from(t, false)) =~= l + skeleton_from(
            t,
            false,
        ));
    }
}

/// A digit-free text is its own skeleton.
proof fn lemma_skeleton_of_free(l: Seq<char>)
    requires
        digit_free(l),
    ensures
        skeleton_from(l, false) == l,
{
    if l.len() > 0 {
        lemma_skeleton_free(l, Seq::empty(), false);
        assert(l + Seq::<char>::empty() =~= l);
    }
}

proof fn lemma_skeleton_run(d: Seq<char>, t: Seq<char>)
    requires
        all_digits(d),
        starts_apart(t),
    ensures
        skeleton_from(d + t, true) == skeleton_from(t, false),
    decreases d.len(),
{
    if d.len() == 0 {
        assert(d + t =~= t);
    } else {
        let s = d + t;
        assert(s[0] == d[0]);
        assert(s.drop_first() =~= d.drop_first() + t);
        assert forall|i: int| 0 <= i < d.drop_first().len() implies '0' <= #[trigger] d.drop_first()[i]
            <= '9' by {
            assert(d.drop_first()[i] == d[i + 1]);
        }
        lemma_skeleton_run(d.drop_first(), t);
    }
}

/// A run of digits followed by a text that does not go on with a digit
/// becomes one `#`.
proof fn lemma_skeleton_digits(d: Seq<char>, t: Seq<char>)
    requires
        all_digits(d),
        d.len() > 0,
        starts_apart(t),
    ensures
        skeleton_from(d + t, false) == seq!['#'] + skeleton_from(t, false),
{
    let s = d + t;
    assert(s[0] == d[0]);
    assert(s.drop_first() =~= d.drop_first() + t);
    assert forall|i: int| 0 <= i < d.drop_first().len() implies '0' <= #[trigger] d.drop_first()[i]
        <= '9' by {
        assert(d.drop_first()[i] == d[i + 1]);
    }
    lemma_skeleton_run(d.drop_first(), t);
}

/// Where a run of digits ends is fixed by the text: two runs of digits,
/// each followed by a text that does not go on with a digit, that read the
/// same are the same run followed by the same text.
proof fn lemma_split_digits(d1: Seq<char>, t1: Seq<char>, d2: Seq<char>, t2: Seq<char>)
    requires
        all_digits(d1),
        all_digits(d2),
        starts_apart(t1),
        starts_apart(t2),
        d1 + t1 == d2 + t2,
    ensures
        d1 == d2,
        t1 == t2,
{
    let s = d1 + t1;
    if d1.len() < d2.len() {
        let k = d1.len() as int;
        assert((d2 + t2)[k] == d2[k]);
        if t1.len() > 0 {
            assert(s[k] == t1[0]);
        }
    } else if d2.len() < d1.len() {
        let k = d2.len() as int;
        assert(s[k] == d1[k]);
        if t2.len() > 0 {
            assert((d2 + t2)[k] == t2[0]);
        }
    }
    assert(d1 =~= s.subrange(0, d1.len() as int));
    assert(d2 =~= (d2 + t2).subrange(0, d2.len() as int));
    assert(t1 =~= s.subrange(d1.len() as int, s.len() as int));
    assert(t2 =~= (d2 + t2).subrange(d2.len() as int, s.len() as int));
}

/// A common beginning can be taken off.
proof fn lemma_strip(a: Seq<char>, s: Seq<char>, t: Seq<char>)
    requires
        a + s == a + t,
    ensures
        s == t,
{
    assert(s =~= (a + s).skip(a.len() as int));
    assert(t =~= (a + t).skip(a.len() as int));
}

/// Two numbers whose decimal forms, each followed by a text that does not go
/// on with a digit, read the same are the same number followed by the same
/// text.
proof fn lemma_split_decimal(x: u64, t1: Seq<char>, y: u64, t2: Seq<char>)
    requires
        starts_apart(t1),
        starts_apart(t2),
        decimal(x as nat) + t1 == decimal(y as nat) + t2,
    ensures
        x == y,
        t1 == t2,
{
    lemma_decimal_digits(x as nat);
    lemma_decimal_digits(y as nat);
    lemma_split_digits(decimal(x as nat), t1, decimal(y as nat), t2);
    lemma_decimal_round_trip(x);
    lemma_decimal_round_trip(y);
}

/// The query of a flag tells the flag.
proof fn lemma_query_flag_eq(key: Seq<char>, f1: Option<bool>, f2: Option<bool>)
    requires
        key.len() > 0,
        query_flag(key, f1) == query_flag(key, f2),
    ensures
        f1 == f2,
{
    assert(bool_text(true).len() == 4);
    assert(bool_text(false).len() == 5);
    assert(query_flag(key, f1).len() == query_flag(key, f2).len());
    let q1 = query_flag(key, f1);
    let q2 = query_flag(key, f2);
    if let Some(b1) = f1 {
        assert(q1.len() == key.len() + bool_text(b1).len());
    } else {
        assert(q1.len() == 0);
    }
    if let Some(b2) = f2 {
        assert(q2.len() == key.len() + bool_text(b2).len());
    } else {
        assert(q2.len() == 0);
    }
}

/// A query is digit-free and does not go on with a digit.
proof fn lemma_query_free(key: Seq<char>, f: Option<bool>)
    requires
        digit_free(key),
        starts_apart(key),
    ensures
        digit_free(query_flag(key, f)),
        starts_apart(query_flag(key, f)),
{
    if let Some(b) = f {
        let t = bool_text(b);
        assert(digit_free(t));
        let q = key + t;
        assert forall|i: int| 0 <= i < q.len() implies !is_digit(#[trigger] q[i]) by {
            if i < key.len() {
                assert(q[i] == key[i]);
            } else {
                assert(q[i] == t[i - key.len()]);
            }
        }
        if key.len() > 0 {
            assert(q[0] == key[0]);
        }
    }
}

/// Digit-free texts join into a digit-free text, which does not go on with
/// a digit when the second does not and the first is empty.
proof fn lemma_free_concat(b: Seq<char>, q: Seq<char>)
    requires
        digit_free(b),
        digit_free(q),
        starts_apart(q),
    ensures
        digit_free(b + q),
        starts_apart(b + q),
{
    let s = b + q;
    assert forall|i: int| 0 <= i < s.len() implies !is_digit(#[trigger] s[i]) by {
        if i < b.len() {
            assert(s[i] == b[i]);
        } else {
            assert(s[i] == q[i - b.len()]);
        }
    }
}

/// A digit-free text followed by a text that does not go on with a digit,
/// or a non-empty digit-free text followed by anything, does not go on with
/// a digit.
proof fn lemma_apart_concat(b: Seq<char>, q: Seq<char>)
    requires
        digit_free(b),
        b.len() > 0 || starts_apart(q),
    ensures
        starts_apart(b + q),
{
    if b.len() > 0 {
        assert((b + q)[0] == b[0]);
    } else {
        assert(b + q =~= q);
    }
}

/// A digit-free, non-empty text followed by a number: the number becomes
/// `#`.
proof fn lemma_skeleton_step(a: Seq<char>, x: u64, rest: Seq<char>)
    requires
        digit_free(a),
        a.len() > 0,
        starts_apart(rest),
    ensures
        skeleton_from(a + (decimal(x as nat) + rest), false) == a + seq!['#'] + skeleton_from(
            rest,
            false,
        ),
{
    let d = decimal(x as nat);
    lemma_decimal_digits(x as nat);
    lemma_skeleton_free(a, d + rest, false);
    lemma_skeleton_digits(d, rest);
    assert(a + (seq!['#'] + skeleton_from(rest, false)) =~= a + seq!['#'] + skeleton_from(
        rest,
        false,
    ));
}

/// The fixed text of a path with one `#` for each ID.
pub open spec fn tseg1(a: Seq<char>, b: Seq<char>) -> Seq<char> {
    a + seq!['#'] + b
}

/// The fixed text of a path with two IDs.
pub open spec fn tseg2(a: Seq<char>, b: Seq<char>, c: Seq<char>) -> Seq<char> {
    tseg1(a, b) + seq!['#'] + c
}

/// The fixed text of a path with three IDs.
pub open spec fn tseg3(a: Seq<char>, b: Seq<char>, c: Seq<char>, d: Seq<char>) -> Seq<char> {
    tseg2(a, b, c) + seq!['#'] + d
}

proof fn lemma_skeleton_seg0(a: Seq<char>, q: Seq<char>)
    requires
        digit_free(a),
        digit_free(q),
        starts_apart(q),
    ensures
        skeleton(a + q) == a + q,
{
    lemma_free_concat(a, q);
    lemma_skeleton_of_free(a + q);
}

proof fn lemma_skeleton_seg1(a: Seq<char>, x: u64, b: Seq<char>, q: Seq<char>)
    requires
        digit_free(a),
        a.len() > 0,
        digit_free(b),
        digit_free(q),
        starts_apart(q),
    ensures
        skeleton(seg1(a, x as nat, b) + q) == tseg1(a, b) + q,
{
    let d = decimal(x as nat);
    lemma_free_concat(b, q);
    assert(seg1(a, x as nat, b) + q =~= a + (d + (b + q)));
    lemma_skeleton_step(a, x, b + q);
    lemma_skeleton_of_free(b + q);
    assert(a + seq!['#'] + (b + q) =~= tseg1(a, b) + q);
}

proof fn lemma_skeleton_seg2(a: Seq<char>, x: u64, b: Seq<char>, y: u64, c: Seq<char>, q: Seq<char>)
    requires
        digit_free(a),
        a.len() > 0,
        digit_free(b),
        b.len() > 0,
        digit_free(c),
        digit_free(q),
        starts_apart(q),
    ensures
        skeleton(seg2(a, x as nat, b, y as nat, c) + q) == tseg2(a, b, c) + q,
{
    let d1 = decimal(x as nat);
    let d2 = decimal(y as nat);
    lemma_free_concat(c, q);
    lemma_apart_concat(b, d2 + (c + q));
    assert(seg2(a, x as nat, b, y as nat, c) + q =~= a + (d1 + (b + (d2 + (c + q)))));
    lemma_skeleton_step(a, x, b + (d2 + (c + q)));
    lemma_skeleton_step(b, y, c + q);
    lemma_skeleton_of_free(c + q);
    assert(a + seq!['#'] + (b + seq!['#'] + (c + q)) =~= tseg2(a, b, c) + q);
}

proof fn lemma_skeleton_seg3(
    a: Seq<char>,
    x: u64,
    b: Seq<char>,
    y: u64,
    c: Seq<char>,
    z: u64,
    d: Seq<char>,
    q: Seq<char>,
)
    requires
        digit_free(a),
        a.len() > 0,
        digit_free(b),
        b.len() > 0,
        digit_free(c),
        c.len() > 0,
        digit_free(d),
        digit_free(q),
        starts_apart(q),
    ensures
        skeleton(seg3(a, x as nat, b, y as nat, c, z as nat, d) + q) == tseg3(a, b, c, d) + q,
{
    let d1 = decimal(x as nat);
    let d2 = decimal(y as nat);
    let d3 = decimal(z as nat);
    let r3 = d + q;
    let r2 = c + (d3 + r3);
    let r1 = b + (d2 + r2);
    assert(skeleton_from(r2, false) == c + seq!['#'] + r3) by {
        lemma_free_concat(d, q);
        lemma_skeleton_of_free(r3);
        lemma_skeleton_step(c, z, r3);
    }
    assert(skeleton_from(r1, false) == b + seq!['#'] + skeleton_from(r2, false)) by {
        lemma_apart_concat(c, d3 + r3);
        lemma_skeleton_step(b, y, r2);
    }
    assert(skeleton(seg3(a, x as nat, b, y as nat, c, z as nat, d) + q) == a + seq!['#']
        + skeleton_from(r1, false)) by {
        assert(seg3(a, x as nat, b, y as nat, c, z as nat, d) + q =~= a + (d1 + r1));
        lemma_apart_concat(b, d2 + r2);
        lemma_skeleton_step(a, x, r1);
    }
    assert(a + seq!['#'] + (b + seq!['#'] + (c + seq!['#'] + r3)) =~= tseg3(a, b, c, d) + q);
}

proof fn lemma_same_seg1(a: Seq<char>, x: u64, y: u64, b: Seq<char>, q1: Seq<char>, q2: Seq<char>)
    requires
        starts_apart(b + q1),
        starts_apart(b + q2),
        seg1(a, x as nat, b) + q1 == seg1(a, y as nat, b) + q2,
    ensures
        x == y,
        q1 == q2,
{
    assert(seg1(a, x as nat, b) + q1 =~= a + (decimal(x as nat) + (b + q1)));
    assert(seg1(a, y as nat, b) + q2 =~= a + (decimal(y as nat) + (b + q2)));
    lemma_strip(a, decimal(x as nat) + (b + q1), decimal(y as nat) + (b + q2));
    lemma_split_decimal(x, b + q1, y, b + q2);
    lemma_strip(b, q1, q2);
}

proof fn lemma_same_seg2(
    a: Seq<char>,
    x1: u64,
    x2: u64,
    b: Seq<char>,
    y1: u64,
    y2: u64,
    c: Seq<char>,
    q1: Seq<char>,
    q2: Seq<char>,
)
    requires
        digit_free(b),
        b.len() > 0,
        starts_apart(c + q1),
        starts_apart(c + q2),
        seg2(a, x1 as nat, b, y1 as nat, c) + q1 == seg2(a, x2 as nat, b, y2 as nat, c) + q2,
    ensures
        x1 == x2,
        y1 == y2,
        q1 == q2,
{
    let r1 = decimal(y1 as nat) + (c + q1);
    let r2 = decimal(y2 as nat) + (c + q2);
    lemma_apart_concat(b, r1);
    lemma_apart_concat(b, r2);
    assert(seg2(a, x1 as nat, b, y1 as nat, c) + q1 =~= seg1(a, x1 as nat, b) + r1);
    assert(seg2(a, x2 as nat, b, y2 as nat, c) + q2 =~= seg1(a, x2 as nat, b) + r2);
    lemma_same_seg1(a, x1, x2, b, r1, r2);
    assert(seg1(Seq::empty(), y1 as nat, c) + q1 =~= r1);
    assert(seg1(Seq::empty(), y2 as nat, c) + q2 =~= r2);
    lemma_same_seg1(Seq::empty(), y1, y2, c, q1, q2);
}

proof fn lemma_same_seg3(
    a: Seq<char>,
    x1: u64,
    x2: u64,
    b: Seq<char>,
    y1: u64,
    y2: u64,
    c: Seq<char>,
    z1: u64,
    z2: u64,
    d: Seq<char>,
    q1: Seq<char>,
    q2: Seq<char>,
)
    requires
        digit_free(b),
        b.len() > 0,
        digit_free(c),
        c.len() > 0,
        digit_free(d),
        starts_apart(q1),
        starts_apart(q2),
        seg3(a, x1 as nat, b, y1 as nat, c, z1 as nat, d) + q1 == seg3(
            a,
            x2 as nat,
            b,
            y2 as nat,
            c,
            z2 as nat,
            d,
        ) + q2,
    ensures
        x1 == x2,
        y1 == y2,
        z1 == z2,
        q1 == q2,
{
    let r1 = decimal(z1 as nat) + (d + q1);
    let r2 = decimal(z2 as nat) + (d + q2);
    lemma_apart_concat(c, r1);
    lemma_apart_concat(c, r2);
    lemma_apart_concat(d, q1);
    lemma_apart_concat(d, q2);
    assert(seg3(a, x1 as nat, b, y1 as nat, c, z1 as nat, d) + q1 =~= seg2(
        a,
        x1 as nat,
        b,
        y1 as nat,
        c,
    ) + r1);
    assert(seg3(a, x2 as nat, b, y2 as nat, c, z2 as nat, d) + q2 =~= seg2(
        a,
        x2 as nat,
        b,
        y2 as nat,
        c,
    ) + r2);
    lemma_same_seg2(a, x1, x2, b, y1, y2, c, r1, r2);
    assert(seg1(Seq::empty(), z1 as nat, d) + q1 =~= r1);
    assert(seg1(Seq::empty(), z2 as nat, d) + q2 =~= r2);
    lemma_same_seg1(Seq::empty(), z1, z2, d, q1, q2);
}

#[verifier::spinoff_prover]
#[verifier::rlimit(40)]
proof fn lemma_free_0()
    ensures
        digit_free(""@),
        ""@.len() == 0,
{
    reveal_strlit("");
    reveal_with_fuel(digit_free_rec, 1);
    lemma_digit_free_rec(""@);
}
#[verifier::spinoff_prover]
#[verifier::rlimit(40)]
proof fn lemma_free_1()
    ensures
        digit_free("/authenticate/terms"@),
        "/authenticate/terms"@.len() == 19,
{
    reveal_strlit("/authenticate/terms");
    reveal_with_fuel(digit_free_rec, 20);
    lemma_digit_free_rec("/authenticate/terms"@);
}
#[verifier::spinoff_prover]
#[verifier::rlimit(40)]
proof fn lemma_free_2()
    ensures
        digit_free("/comments"@),
        "/comments"@.len() == 9,
{
    reveal_strlit("/comments");
    reveal_with_fuel(digit_free_rec, 10);
    lemma_digit_free_rec("/comments"@);
}
#[verifier::spinoff_prover]
#[verifier::rlimit(40)]
proof fn lemma_free_3()
    ensures
        digit_free("/comments/"@),
        "/comments/"@.len() == 10,
{
    reveal_strlit("/comments/");
    reveal_with_fuel(digit_free_rec, 11);
    lemma_digit_free_rec("/comments/"@);
}
#[verifier::spinoff_prover]
#[verifier::rlimit(40)]
proof fn lemma_free_4()
    ensures
        digit_free("/dependencies"@),
        "/dependencies"@.len() == 13,
{
    reveal_strlit("/dependencies");
    reveal_with_fuel(digit_free_rec, 14);
    lemma_digit_free_rec("/dependencies"@);
}
#[verifier::spinoff_prover]
#[verifier::rlimit(40)]
proof fn lemma_free_5()
    ensures
        digit_free("/events"@),
        "/events"@.len() == 7,
{
    reveal_strlit("/events");
    reveal_with_fuel(digit_free_rec, 8);
    lemma_digit_free_rec("/events"@);
}
#[verifier::spinoff_prover]
#[verifier::rlimit(40)]
proof fn lemma_free_6()
    ensures
        digit_free("/external/discordauth"@),
        "/external/discordauth"@.len() == 21,
{
    reveal_strlit("/external/discordauth");
    reveal_with_fuel(digit_free_rec, 22);
    lemma_digit_free_rec("/external/discordauth"@);
}
#[verifier::spinoff_prover]
#[verifier::rlimit(40)]
proof fn lemma_free_7()
    ensures
        digit_free("/external/epicgamesauth"@),
        "/external/epicgamesauth"@.len() == 23,
{
    reveal_strlit("/external/epicgamesauth");
    reveal_with_fuel(digit_free_rec, 24);
    lemma_digit_free_rec("/external/epicgamesauth"@);
}
#[verifier::spinoff_prover]
#[verifier::rlimit(40)]
proof fn lemma_free_8()
    ensures
        digit_free("/external/googleauth"@),
        "/external/googleauth"@.len() == 20,
{
    reveal_strlit("/external/googleauth");
    reveal_with_fuel(digit_free_rec, 21);
    lemma_digit_free_rec("/external/googleauth"@);
}
#[verifier::spinoff_prover]
#[verifier::rlimit(40)]
proof fn lemma_free_9()
    ensures
        digit_free("/external/oculusauth"@),
        "/external/oculusauth"@.len() == 20,
{
    reveal_strlit("/external/oculusauth");
    reveal_with_fuel(digit_free_rec, 21);
    lemma_digit_free_rec("/external/oculusauth"@);
}
#[verifier::spinoff_prover]
#[verifier::rlimit(40)]
proof fn lemma_free_10()
    ensures
        digit_free("/external/openidauth"@),
        "/external/openidauth"@.len() == 20,
{
    reveal_strlit("/external/openidauth");
    reveal_with_fuel(digit_free_rec, 21);
    lemma_digit_free_rec("/external/openidauth"@);
}
#[verifier::spinoff_prover]
#[verifier::rlimit(40)]
proof fn lemma_free_11()
    ensures
        digit_free("/external/psnauth"@),
        "/external/psnauth"@.len() == 17,
{
    reveal_strlit("/external/psnauth");
    reveal_with_fuel(digit_free_rec, 18);
    lemma_digit_free_rec("/external/psnauth"@);
}
#[verifier::spinoff_prover]
#[verifier::rlimit(40)]
proof fn lemma_free_12()
    ensures
        digit_free("/external/steamauth"@),
        "/external/steamauth"@.len() == 19,
{
    reveal_strlit("/external/steamauth");
    reveal_with_fuel(digit_free_rec, 20);
    lemma_digit_free_rec("/external/steamauth"@);
}
#[verifier::spinoff_prover]
#[verifier::rlimit(40)]
proof fn lemma_free_13()
    ensures
        digit_free("/external/switchauth"@),
        "/external/switchauth"@.len() == 20,
{
    reveal_strlit("/external/switchauth");
    reveal_with_fuel(digit_free_rec, 21);
    lemma_digit_free_rec("/external/switchauth"@);
}
#[verifier::spinoff_prover]
#[verifier::rlimit(40)]
proof fn lemma_free_14()
    ensures
        digit_free("/external/xboxauth"@),
        "/external/xboxauth"@.len() == 18,
{
    reveal_strlit("/external/xboxauth");
    reveal_with_fuel(digit_free_rec, 19);
    lemma_digit_free_rec("/external/xboxauth"@);
}
#[verifier::spinoff_prover]
#[verifier::rlimit(40)]
proof fn lemma_free_15()
    ensures
        digit_free("/files"@),
        "/files"@.len() == 6,
{
    reveal_strlit("/files");
    reveal_with_fuel(digit_free_rec, 7);
    lemma_digit_free_rec("/files"@);
}
#[verifier::spinoff_prover]
#[verifier::rlimit(40)]
proof fn lemma_free_16()
    ensures
        digit_free("/files/"@),
        "/files/"@.len() == 7,
{
    reveal_strlit("/files/");
    reveal_with_fuel(digit_free_rec, 8);
    lemma_digit_free_rec("/files/"@);
}
#[verifier::spinoff_prover]
#[verifier::rlimit(40)]
proof fn lemma_free_17()
    ensures
        digit_free("/games"@),
        "/games"@.len() == 6,
{
    reveal_strlit("/games");
    reveal_with_fuel(digit_free_rec, 7);
    lemma_digit_free_rec("/games"@);
}
#[verifier::spinoff_prover]
#[verifier::rlimit(40)]
proof fn lemma_free_18()
    ensures
        digit_free("/games/"@),
        "/games/"@.len() == 7,
{
    reveal_strlit("/games/");
    reveal_with_fuel(digit_free_rec, 8);
    lemma_digit_free_rec("/games/"@);
}
#[verifier::spinoff_prover]
#[verifier::rlimit(40)]
proof fn lemma_free_19()
    ensures
        digit_free("/karma"@),
        "/karma"@.len() == 6,
{
    reveal_strlit("/karma");
    reveal_with_fuel(digit_free_rec, 7);
    lemma_digit_free_rec("/karma"@);
}
#[verifier::spinoff_prover]
#[verifier::rlimit(40)]
proof fn lemma_free_20()
    ensures
        digit_free("/me"@),
        "/me"@.len() == 3,
{
    reveal_strlit("/me");
    reveal_with_fuel(digit_free_rec, 4);
    lemma_digit_free_rec("/me"@);
}
#[verifier::spinoff_prover]
#[verifier::rlimit(40)]
proof fn lemma_free_21()
    ensures
        digit_free("/me/events"@),
        "/me/events"@.len() == 10,
{
    reveal_strlit("/me/events");
    reveal_with_fuel(digit_free_rec, 11);
    lemma_digit_free_rec("/me/events"@);
}
#[verifier::spinoff_prover]
#[verifier::rlimit(40)]
proof fn lemma_free_22()
    ensures
        digit_free("/me/files"@),
        "/me/files"@.len() == 9,
{
    reveal_strlit("/me/files");
    reveal_with_fuel(digit_free_rec, 10);
    lemma_digit_free_rec("/me/files"@);
}
#[verifier::spinoff_prover]
#[verifier::rlimit(40)]
proof fn lemma_free_23()
    ensures
        digit_free("/me/games"@),
        "/me/games"@.len() == 9,
{
    reveal_strlit("/me/games");
    reveal_with_fuel(digit_free_rec, 10);
    lemma_digit_free_rec("/me/games"@);
}
#[verifier::spinoff_prover]
#[verifier::rlimit(40)]
proof fn lemma_free_24()
    ensures
        digit_free("/me/mods"@),
        "/me/mods"@.len() == 8,
{
    reveal_strlit("/me/mods");
    reveal_with_fuel(digit_free_rec, 9);
    lemma_digit_free_rec("/me/mods"@);
}
#[verifier::spinoff_prover]
#[verifier::rlimit(40)]
proof fn lemma_free_25()
    ensures
        digit_free("/me/ratings"@),
        "/me/ratings"@.len() == 11,
{
    reveal_strlit("/me/ratings");
    reveal_with_fuel(digit_free_rec, 12);
    lemma_digit_free_rec("/me/ratings"@);
}
#[verifier::spinoff_prover]
#[verifier::rlimit(40)]
proof fn lemma_free_26()
    ensures
        digit_free("/me/subscribed"@),
        "/me/subscribed"@.len() == 14,
{
    reveal_strlit("/me/subscribed");
    reveal_with_fuel(digit_free_rec, 15);
    lemma_digit_free_rec("/me/subscribed"@);
}
#[verifier::spinoff_prover]
#[verifier::rlimit(40)]
proof fn lemma_free_27()
    ensures
        digit_free("/me/users/muted"@),
        "/me/users/muted"@.len() == 15,
{
    reveal_strlit("/me/users/muted");
    reveal_with_fuel(digit_free_rec, 16);
    lemma_digit_free_rec("/me/users/muted"@);
}
#[verifier::spinoff_prover]
#[verifier::rlimit(40)]
proof fn lemma_free_28()
    ensures
        digit_free("/media"@),
        "/media"@.len() == 6,
{
    reveal_strlit("/media");
    reveal_with_fuel(digit_free_rec, 7);
    lemma_digit_free_rec("/media"@);
}
#[verifier::spinoff_prover]
#[verifier::rlimit(40)]
proof fn lemma_free_29()
    ensures
        digit_free("/media/reorder"@),
        "/media/reorder"@.len() == 14,
{
    reveal_strlit("/media/reorder");
    reveal_with_fuel(digit_free_rec, 15);
    lemma_digit_free_rec("/media/reorder"@);
}
#[verifier::spinoff_prover]
#[verifier::rlimit(40)]
proof fn lemma_free_30()
    ensures
        digit_free("/metadatakvp"@),
        "/metadatakvp"@.len() == 12,
{
    reveal_strlit("/metadatakvp");
    reveal_with_fuel(digit_free_rec, 13);
    lemma_digit_free_rec("/metadatakvp"@);
}
#[verifier::spinoff_prover]
#[verifier::rlimit(40)]
proof fn lemma_free_31()
    ensures
        digit_free("/mods"@),
        "/mods"@.len() == 5,
{
    reveal_strlit("/mods");
    reveal_with_fuel(digit_free_rec, 6);
    lemma_digit_free_rec("/mods"@);
}
#[verifier::spinoff_prover]
#[verifier::rlimit(40)]
proof fn lemma_free_32()
    ensures
        digit_free("/mods/"@),
        "/mods/"@.len() == 6,
{
    reveal_strlit("/mods/");
    reveal_with_fuel(digit_free_rec, 7);
    lemma_digit_free_rec("/mods/"@);
}
#[verifier::spinoff_prover]
#[verifier::rlimit(40)]
proof fn lemma_free_33()
    ensures
        digit_free("/mods/events"@),
        "/mods/events"@.len() == 12,
{
    reveal_strlit("/mods/events");
    reveal_with_fuel(digit_free_rec, 13);
    lemma_digit_free_rec("/mods/events"@);
}
#[verifier::spinoff_prover]
#[verifier::rlimit(40)]
proof fn lemma_free_34()
    ensures
        digit_free("/mods/stats"@),
        "/mods/stats"@.len() == 11,
{
    reveal_strlit("/mods/stats");
    reveal_with_fuel(digit_free_rec, 12);
    lemma_digit_free_rec("/mods/stats"@);
}
#[verifier::spinoff_prover]
#[verifier::rlimit(40)]
proof fn lemma_free_35()
    ensures
        digit_free("/mute"@),
        "/mute"@.len() == 5,
{
    reveal_strlit("/mute");
    reveal_with_fuel(digit_free_rec, 6);
    lemma_digit_free_rec("/mute"@);
}
#[verifier::spinoff_prover]
#[verifier::rlimit(40)]
proof fn lemma_free_36()
    ensures
        digit_free("/oauth/emailexchange"@),
        "/oauth/emailexchange"@.len() == 20,
{
    reveal_strlit("/oauth/emailexchange");
    reveal_with_fuel(digit_free_rec, 21);
    lemma_digit_free_rec("/oauth/emailexchange"@);
}
#[verifier::spinoff_prover]
#[verifier::rlimit(40)]
proof fn lemma_free_37()
    ensures
        digit_free("/oauth/emailrequest"@),
        "/oauth/emailrequest"@.len() == 19,
{
    reveal_strlit("/oauth/emailrequest");
    reveal_with_fuel(digit_free_rec, 20);
    lemma_digit_free_rec("/oauth/emailrequest"@);
}
#[verifier::spinoff_prover]
#[verifier::rlimit(40)]
proof fn lemma_free_38()
    ensures
        digit_free("/oauth/logout"@),
        "/oauth/logout"@.len() == 13,
{
    reveal_strlit("/oauth/logout");
    reveal_with_fuel(digit_free_rec, 14);
    lemma_digit_free_rec("/oauth/logout"@);
}
#[verifier::spinoff_prover]
#[verifier::rlimit(40)]
proof fn lemma_free_39()
    ensures
        digit_free("/platforms"@),
        "/platforms"@.len() == 10,
{
    reveal_strlit("/platforms");
    reveal_with_fuel(digit_free_rec, 11);
    lemma_digit_free_rec("/platforms"@);
}
#[verifier::spinoff_prover]
#[verifier::rlimit(40)]
proof fn lemma_free_40()
    ensures
        digit_free("/ratings"@),
        "/ratings"@.len() == 8,
{
    reveal_strlit("/ratings");
    reveal_with_fuel(digit_free_rec, 9);
    lemma_digit_free_rec("/ratings"@);
}
#[verifier::spinoff_prover]
#[verifier::rlimit(40)]
proof fn lemma_free_41()
    ensures
        digit_free("/report"@),
        "/report"@.len() == 7,
{
    reveal_strlit("/report");
    reveal_with_fuel(digit_free_rec, 8);
    lemma_digit_free_rec("/report"@);
}
#[verifier::spinoff_prover]
#[verifier::rlimit(40)]
proof fn lemma_free_42()
    ensures
        digit_free("/stats"@),
        "/stats"@.len() == 6,
{
    reveal_strlit("/stats");
    reveal_with_fuel(digit_free_rec, 7);
    lemma_digit_free_rec("/stats"@);
}
#[verifier::spinoff_prover]
#[verifier::rlimit(40)]
proof fn lemma_free_43()
    ensures
        digit_free("/subscribe"@),
        "/subscribe"@.len() == 10,
{
    reveal_strlit("/subscribe");
    reveal_with_fuel(digit_free_rec, 11);
    lemma_digit_free_rec("/subscribe"@);
}
#[verifier::spinoff_prover]
#[verifier::rlimit(40)]
proof fn lemma_free_44()
    ensures
        digit_free("/tags"@),
        "/tags"@.len() == 5,
{
    reveal_strlit("/tags");
    reveal_with_fuel(digit_free_rec, 6);
    lemma_digit_free_rec("/tags"@);
}
#[verifier::spinoff_prover]
#[verifier::rlimit(40)]
proof fn lemma_free_45()
    ensures
        digit_free("/tags/rename"@),
        "/tags/rename"@.len() == 12,
{
    reveal_strlit("/tags/rename");
    reveal_with_fuel(digit_free_rec, 13);
    lemma_digit_free_rec("/tags/rename"@);
}
#[verifier::spinoff_prover]
#[verifier::rlimit(40)]
proof fn lemma_free_46()
    ensures
        digit_free("/team"@),
        "/team"@.len() == 5,
{
    reveal_strlit("/team");
    reveal_with_fuel(digit_free_rec, 6);
    lemma_digit_free_rec("/team"@);
}
#[verifier::spinoff_prover]
#[verifier::rlimit(40)]
proof fn lemma_free_47()
    ensures
        digit_free("/users/"@),
        "/users/"@.len() == 7,
{
    reveal_strlit("/users/");
    reveal_with_fuel(digit_free_rec, 8);
    lemma_digit_free_rec("/users/"@);
}
#[verifier::spinoff_prover]
#[verifier::rlimit(40)]
proof fn lemma_free_48()
    ensures
        digit_free("?recursive="@),
        "?recursive="@.len() == 11,
        starts_apart("?recursive="@),
{
    reveal_strlit("?recursive=");
    reveal_with_fuel(digit_free_rec, 12);
    lemma_digit_free_rec("?recursive="@);
}
#[verifier::spinoff_prover]
#[verifier::rlimit(40)]
proof fn lemma_free_49()
    ensures
        digit_free("?show_hidden_tags="@),
        "?show_hidden_tags="@.len() == 18,
        starts_apart("?show_hidden_tags="@),
{
    reveal_strlit("?show_hidden_tags=");
    reveal_with_fuel(digit_free_rec, 19);
    lemma_digit_free_rec("?show_hidden_tags="@);
}
/// The skeleton of a route's path: its fixed text, with `#` for each ID.
pub open spec fn template(r: Route) -> Seq<char> {
    match r {
        Route::AddFile { .. } => tseg2("/games/"@, "/mods/"@, "/files"@),
        Route::AddGameMedia { .. } => tseg1("/games/"@, "/media"@),
        Route::AddGameTags { .. } => tseg1("/games/"@, "/tags"@),
        Route::AddMod { .. } => tseg1("/games/"@, "/mods"@),
        Route::AddModComment { .. } => tseg2("/games/"@, "/mods/"@, "/comments"@),
        Route::AddModDependencies { .. } => tseg2("/games/"@, "/mods/"@, "/dependencies"@),
        Route::AddModMedia { .. } => tseg2("/games/"@, "/mods/"@, "/media"@),
        Route::AddModMetadata { .. } => tseg2("/games/"@, "/mods/"@, "/metadatakvp"@),
        Route::AddModTags { .. } => tseg2("/games/"@, "/mods/"@, "/tags"@),
        Route::DeleteFile { .. } => tseg3("/games/"@, "/mods/"@, "/files/"@, ""@),
        Route::DeleteGameTags { .. } => tseg1("/games/"@, "/tags"@),
        Route::DeleteMod { .. } => tseg2("/games/"@, "/mods/"@, ""@),
        Route::DeleteModComment { .. } => tseg3("/games/"@, "/mods/"@, "/comments/"@, ""@),
        Route::DeleteModDependencies { .. } => tseg2("/games/"@, "/mods/"@, "/dependencies"@),
        Route::DeleteModMedia { .. } => tseg2("/games/"@, "/mods/"@, "/media"@),
        Route::DeleteModMetadata { .. } => tseg2("/games/"@, "/mods/"@, "/metadatakvp"@),
        Route::DeleteModTags { .. } => tseg2("/games/"@, "/mods/"@, "/tags"@),
        Route::EditFile { .. } => tseg3("/games/"@, "/mods/"@, "/files/"@, ""@),
        Route::EditMod { .. } => tseg2("/games/"@, "/mods/"@, ""@),
        Route::EditModComment { .. } => tseg3("/games/"@, "/mods/"@, "/comments/"@, ""@),
        Route::ExternalAuthDiscord => "/external/discordauth"@,
        Route::ExternalAuthEpic => "/external/epicgamesauth"@,
        Route::ExternalAuthGoogle => "/external/googleauth"@,
        Route::ExternalAuthMeta => "/external/oculusauth"@,
        Route::ExternalAuthOpenID => "/external/openidauth"@,
        Route::ExternalAuthPSN => "/external/psnauth"@,
        Route::ExternalAuthSteam => "/external/steamauth"@,
        Route::ExternalAuthSwitch => "/external/switchauth"@,
        Route::ExternalAuthXbox => "/external/xboxauth"@,
        Route::GetFile { .. } => tseg3("/games/"@, "/mods/"@, "/files/"@, ""@),
        Route::GetFiles { .. } => tseg2("/games/"@, "/mods/"@, "/files"@),
        Route::GetGame { show_hidden_tags, .. } => tseg1("/games/"@, ""@) + query_flag("?show_hidden_tags="@, show_hidden_tags),
        Route::GetGames { show_hidden_tags, .. } => "/games"@ + query_flag("?show_hidden_tags="@, show_hidden_tags),
        Route::GetGameStats { .. } => tseg1("/games/"@, "/stats"@),
        Route::GetGameTags { show_hidden_tags, .. } => tseg1("/games/"@, "/tags"@) + query_flag("?show_hidden_tags="@, show_hidden_tags),
        Route::GetMod { .. } => tseg2("/games/"@, "/mods/"@, ""@),
        Route::GetModComment { .. } => tseg3("/games/"@, "/mods/"@, "/comments/"@, ""@),
        Route::GetModComments { .. } => tseg2("/games/"@, "/mods/"@, "/comments"@),
        Route::GetModDependencies { recursive, .. } => tseg2("/games/"@, "/mods/"@, "/dependencies"@) + query_flag("?recursive="@, recursive),
        Route::GetModEvents { .. } => tseg2("/games/"@, "/mods/"@, "/events"@),
        Route::GetModMetadata { .. } => tseg2("/games/"@, "/mods/"@, "/metadatakvp"@),
        Route::GetModStats { .. } => tseg2("/games/"@, "/mods/"@, "/stats"@),
        Route::GetModTags { .. } => tseg2("/games/"@, "/mods/"@, "/tags"@),
        Route::GetModTeamMembers { .. } => tseg2("/games/"@, "/mods/"@, "/team"@),
        Route::GetMods { .. } => tseg1("/games/"@, "/mods"@),
        Route::GetModsEvents { .. } => tseg1("/games/"@, "/mods/events"@),
        Route::GetModsStats { .. } => tseg1("/games/"@, "/mods/stats"@),
        Route::ManagePlatformStatus { .. } => tseg3("/games/"@, "/mods/"@, "/files/"@, "/platforms"@),
        Route::MuteUser { .. } => tseg1("/users/"@, "/mute"@),
        Route::OAuthEmailRequest => "/oauth/emailrequest"@,
        Route::OAuthEmailExchange => "/oauth/emailexchange"@,
        Route::OAuthLogout => "/oauth/logout"@,
        Route::RateMod { .. } => tseg2("/games/"@, "/mods/"@, "/ratings"@),
        Route::RenameGameTags { .. } => tseg1("/games/"@, "/tags/rename"@),
        Route::ReorderModMedia { .. } => tseg2("/games/"@, "/mods/"@, "/media/reorder"@),
        Route::SubmitReport => "/report"@,
        Route::SubscribeToMod { .. } => tseg2("/games/"@, "/mods/"@, "/subscribe"@),
        Route::Terms => "/authenticate/terms"@,
        Route::UnmuteUser { .. } => tseg1("/users/"@, "/mute"@),
        Route::UnsubscribeFromMod { .. } => tseg2("/games/"@, "/mods/"@, "/subscribe"@),
        Route::UpdateModCommentKarma { .. } => tseg3("/games/"@, "/mods/"@, "/comments/"@, "/karma"@),
        Route::UserAuthenticated => "/me"@,
        Route::UserEvents => "/me/events"@,
        Route::UserFiles => "/me/files"@,
        Route::UserGames => "/me/games"@,
        Route::UserMods => "/me/mods"@,
        Route::UserMuted => "/me/users/muted"@,
        Route::UserRatings => "/me/ratings"@,
        Route::UserSubscriptions => "/me/subscribed"@,
    }
}

/// The place of a route's variant among the routes.
pub open spec fn kind(r: Route) -> int {
    match r {
        Route::AddFile { .. } => 0,
        Route::AddGameMedia { .. } => 1,
        Route::AddGameTags { .. } => 2,
        Route::AddMod { .. } => 3,
        Route::AddModComment { .. } => 4,
        Route::AddModDependencies { .. } => 5,
        Route::AddModMedia { .. } => 6,
        Route::AddModMetadata { .. } => 7,
        Route::AddModTags { .. } => 8,
        Route::DeleteFile { .. } => 9,
        Route::DeleteGameTags { .. } => 10,
        Route::DeleteMod { .. } => 11,
        Route::DeleteModComment { .. } => 12,
        Route::DeleteModDependencies { .. } => 13,
        Route::DeleteModMedia { .. } => 14,
        Route::DeleteModMetadata { .. } => 15,
        Route::DeleteModTags { .. } => 16,
        Route::EditFile { .. } => 17,
        Route::EditMod { .. } => 18,
        Route::EditModComment { .. } => 19,
        Route::ExternalAuthDiscord => 20,
        Route::ExternalAuthEpic => 21,
        Route::ExternalAuthGoogle => 22,
        Route::ExternalAuthMeta => 23,
        Route::ExternalAuthOpenID => 24,
        Route::ExternalAuthPSN => 25,
        Route::ExternalAuthSteam => 26,
        Route::ExternalAuthSwitch => 27,
        Route::ExternalAuthXbox => 28,
        Route::GetFile { .. } => 29,
        Route::GetFiles { .. } => 30,
        Route::GetGame { .. } => 31,
        Route::GetGames { .. } => 32,
        Route::GetGameStats { .. } => 33,
        Route::GetGameTags { .. } => 34,
        Route::GetMod { .. } => 35,
        Route::GetModComment { .. } => 36,
        Route::GetModComments { .. } => 37,
        Route::GetModDependencies { .. } => 38,
        Route::GetModEvents { .. } => 39,
        Route::GetModMetadata { .. } => 40,
        Route::GetModStats { .. } => 41,
        Route::GetModTags { .. } => 42,
        Route::GetModTeamMembers { .. } => 43,
        Route::GetMods { .. } => 44,
        Route::GetModsEvents { .. } => 45,
        Route::GetModsStats { .. } => 46,
        Route::ManagePlatformStatus { .. } => 47,
        Route::MuteUser { .. } => 48,
        Route::OAuthEmailRequest => 49,
        Route::OAuthEmailExchange => 50,
        Route::OAuthLogout => 51,
        Route::RateMod { .. } => 52,
        Route::RenameGameTags { .. } => 53,
        Route::ReorderModMedia { .. } => 54,
        Route::SubmitReport => 55,
        Route::SubscribeToMod { .. } => 56,
        Route::Terms => 57,
        Route::UnmuteUser { .. } => 58,
        Route::UnsubscribeFromMod { .. } => 59,
        Route::UpdateModCommentKarma { .. } => 60,
        Route::UserAuthenticated => 61,
        Route::UserEvents => 62,
        Route::UserFiles => 63,
        Route::UserGames => 64,
        Route::UserMods => 65,
        Route::UserMuted => 66,
        Route::UserRatings => 67,
        Route::UserSubscriptions => 68,
    }
}
/// The route a method and a path skeleton belong to, by its place among the
/// routes; `-1` when none does.
pub open spec fn route_kind_of(m: Method, t: Seq<char>) -> int {
    match m {
        Method::Get => {
            if t.len() == 3 {
                61
            } else if t.len() == 6 {
                32
            } else if t.len() == 8 {
                if t[1] == 'g' {
                    31
                } else if t[1] == 'm' {
                    65
                } else {
                    -1
                }
            } else if t.len() == 9 {
                if t[4] == 'f' {
                    63
                } else if t[4] == 'g' {
                    64
                } else {
                    -1
                }
            } else if t.len() == 10 {
                62
            } else if t.len() == 11 {
                67
            } else if t.len() == 13 {
                if t[9] == 'm' {
                    44
                } else if t[9] == 't' {
                    34
                } else {
                    -1
                }
            } else if t.len() == 14 {
                if t[1] == 'g' {
                    33
                } else if t[1] == 'm' {
                    68
                } else {
                    -1
                }
            } else if t.len() == 15 {
                if t[1] == 'g' {
                    35
                } else if t[1] == 'm' {
                    66
                } else {
                    -1
                }
            } else if t.len() == 19 {
                if t[1] == 'a' {
                    57
                } else if t[1] == 'g' {
                    46
                } else {
                    -1
                }
            } else if t.len() == 20 {
                if t[17] == 'a' {
                    42
                } else if t[17] == 'e' {
                    43
                } else if t[17] == 'n' {
                    45
                } else {
                    -1
                }
            } else if t.len() == 21 {
                if t[16] == 'f' {
                    30
                } else if t[16] == 's' {
                    41
                } else {
                    -1
                }
            } else if t.len() == 22 {
                39
            } else if t.len() == 23 {
                29
            } else if t.len() == 24 {
                37
            } else if t.len() == 26 {
                36
            } else if t.len() == 27 {
                40
            } else if t.len() == 28 {
                if t[6] == '/' {
                    38
                } else if t[6] == '?' {
                    32
                } else {
                    -1
                }
            } else if t.len() == 29 {
                32
            } else if t.len() == 30 {
                31
            } else if t.len() == 31 {
                31
            } else if t.len() == 35 {
                34
            } else if t.len() == 36 {
                34
            } else if t.len() == 43 {
                38
            } else if t.len() == 44 {
                38
            } else {
                -1
            }
        },
        Method::Post => {
            if t.len() == 7 {
                55
            } else if t.len() == 13 {
                if t[11] == 'd' {
                    3
                } else if t[11] == 'g' {
                    2
                } else if t[11] == 't' {
                    48
                } else if t[11] == 'u' {
                    51
                } else {
                    -1
                }
            } else if t.len() == 14 {
                1
            } else if t.len() == 17 {
                25
            } else if t.len() == 18 {
                28
            } else if t.len() == 19 {
                if t[1] == 'e' {
                    26
                } else if t[1] == 'o' {
                    49
                } else {
                    -1
                }
            } else if t.len() == 20 {
                if t[11] == 'c' {
                    23
                } else if t[11] == 'd' {
                    8
                } else if t[11] == 'l' {
                    50
                } else if t[11] == 'o' {
                    22
                } else if t[11] == 'p' {
                    24
                } else if t[11] == 'w' {
                    27
                } else {
                    -1
                }
            } else if t.len() == 21 {
                if t[16] == 'd' {
                    20
                } else if t[16] == 'f' {
                    0
                } else if t[16] == 'm' {
                    6
                } else {
                    -1
                }
            } else if t.len() == 23 {
                if t[1] == 'e' {
                    21
                } else if t[1] == 'g' {
                    52
                } else {
                    -1
                }
            } else if t.len() == 24 {
                4
            } else if t.len() == 25 {
                56
            } else if t.len() == 27 {
                7
            } else if t.len() == 28 {
                5
            } else if t.len() == 32 {
                60
            } else if t.len() == 33 {
                47
            } else {
                -1
            }
        },
        Method::Put => {
            if t.len() == 15 {
                18
            } else if t.len() == 20 {
                53
            } else if t.len() == 23 {
                17
            } else if t.len() == 26 {
                19
            } else if t.len() == 29 {
                54
            } else {
                -1
            }
        },
        Method::Delete => {
            if t.len() == 13 {
                if t[1] == 'g' {
                    10
                } else if t[1] == 'u' {
                    58
                } else {
                    -1
                }
            } else if t.len() == 15 {
                11
            } else if t.len() == 20 {
                16
            } else if t.len() == 21 {
                14
            } else if t.len() == 23 {
                9
            } else if t.len() == 25 {
                59
            } else if t.len() == 26 {
                12
            } else if t.len() == 27 {
                15
            } else if t.len() == 28 {
                13
            } else {
                -1
            }
        },
    }
}
/// The skeleton of every route's path is the route's template.
proof fn lemma_route_skeleton(r: Route)
    ensures
        skeleton(r.path_text()) == template(r),
{
    match r {
        Route::AddFile { .. } => lemma_skeleton_add_file(r),
        Route::AddGameMedia { .. } => lemma_skeleton_add_game_media(r),
        Route::AddGameTags { .. } => lemma_skeleton_add_game_tags(r),
        Route::AddMod { .. } => lemma_skeleton_add_mod(r),
        Route::AddModComment { .. } => lemma_skeleton_add_mod_comment(r),
        Route::AddModDependencies { .. } => lemma_skeleton_add_mod_dependencies(r),
        Route::AddModMedia { .. } => lemma_skeleton_add_mod_media(r),
        Route::AddModMetadata { .. } => lemma_skeleton_add_mod_metadata(r),
        Route::AddModTags { .. } => lemma_skeleton_add_mod_tags(r),
        Route::DeleteFile { .. } => lemma_skeleton_delete_file(r),
        Route::DeleteGameTags { .. } => lemma_skeleton_delete_game_tags(r),
        Route::DeleteMod { .. } => lemma_skeleton_delete_mod(r),
        Route::DeleteModComment { .. } => lemma_skeleton_delete_mod_comment(r),
        Route::DeleteModDependencies { .. } => lemma_skeleton_delete_mod_dependencies(r),
        Route::DeleteModMedia { .. } => lemma_skeleton_delete_mod_media(r),
        Route::DeleteModMetadata { .. } => lemma_skeleton_delete_mod_metadata(r),
        Route::DeleteModTags { .. } => lemma_skeleton_delete_mod_tags(r),
        Route::EditFile { .. } => lemma_skeleton_edit_file(r),
        Route::EditMod { .. } => lemma_skeleton_edit_mod(r),
        Route::EditModComment { .. } => lemma_skeleton_edit_mod_comment(r),
        Route::ExternalAuthDiscord => lemma_skeleton_external_auth_discord(r),
        Route::ExternalAuthEpic => lemma_skeleton_external_auth_epic(r),
        Route::ExternalAuthGoogle => lemma_skeleton_external_auth_google(r),
        Route::ExternalAuthMeta => lemma_skeleton_external_auth_meta(r),
        Route::ExternalAuthOpenID => lemma_skeleton_external_auth_open_i_d(r),
        Route::ExternalAuthPSN => lemma_skeleton_external_auth_p_s_n(r),
        Route::ExternalAuthSteam => lemma_skeleton_external_auth_steam(r),
        Route::ExternalAuthSwitch => lemma_skeleton_external_auth_switch(r),
        Route::ExternalAuthXbox => lemma_skeleton_external_auth_xbox(r),
        Route::GetFile { .. } => lemma_skeleton_get_file(r),
        Route::GetFiles { .. } => lemma_skeleton_get_files(r),
        Route::GetGame { .. } => lemma_skeleton_get_game(r),
        Route::GetGames { .. } => lemma_skeleton_get_games(r),
        Route::GetGameStats { .. } => lemma_skeleton_get_game_stats(r),
        Route::GetGameTags { .. } => lemma_skeleton_get_game_tags(r),
        Route::GetMod { .. } => lemma_skeleton_get_mod(r),
        Route::GetModComment { .. } => lemma_skeleton_get_mod_comment(r),
        Route::GetModComments { .. } => lemma_skeleton_get_mod_comments(r),
        Route::GetModDependencies { .. } => lemma_skeleton_get_mod_dependencies(r),
        Route::GetModEvents { .. } => lemma_skeleton_get_mod_events(r),
        Route::GetModMetadata { .. } => lemma_skeleton_get_mod_metadata(r),
        Route::GetModStats { .. } => lemma_skeleton_get_mod_stats(r),
        Route::GetModTags { .. } => lemma_skeleton_get_mod_tags(r),
        Route::GetModTeamMembers { .. } => lemma_skeleton_get_mod_team_members(r),
        Route::GetMods { .. } => lemma_skeleton_get_mods(r),
        Route::GetModsEvents { .. } => lemma_skeleton_get_mods_events(r),
        Route::GetModsStats { .. } => lemma_skeleton_get_mods_stats(r),
        Route::ManagePlatformStatus { .. } => lemma_skeleton_manage_platform_status(r),
        Route::MuteUser { .. } => lemma_skeleton_mute_user(r),
        Route::OAuthEmailRequest => lemma_skeleton_o_auth_email_request(r),
        Route::OAuthEmailExchange => lemma_skeleton_o_auth_email_exchange(r),
        Route::OAuthLogout => lemma_skeleton_o_auth_logout(r),
        Route::RateMod { .. } => lemma_skeleton_rate_mod(r),
        Route::RenameGameTags { .. } => lemma_skeleton_rename_game_tags(r),
        Route::ReorderModMedia { .. } => lemma_skeleton_reorder_mod_media(r),
        Route::SubmitReport => lemma_skeleton_submit_report(r),
        Route::SubscribeToMod { .. } => lemma_skeleton_subscribe_to_mod(r),
        Route::Terms => lemma_skeleton_terms(r),
        Route::UnmuteUser { .. } => lemma_skeleton_unmute_user(r),
        Route::UnsubscribeFromMod { .. } => lemma_skeleton_unsubscribe_from_mod(r),
        Route::UpdateModCommentKarma { .. } => lemma_skeleton_update_mod_comment_karma(r),
        Route::UserAuthenticated => lemma_skeleton_user_authenticated(r),
        Route::UserEvents => lemma_skeleton_user_events(r),
        Route::UserFiles => lemma_skeleton_user_files(r),
        Route::UserGames => lemma_skeleton_user_games(r),
        Route::UserMods => lemma_skeleton_user_mods(r),
        Route::UserMuted => lemma_skeleton_user_muted(r),
        Route::UserRatings => lemma_skeleton_user_ratings(r),
        Route::UserSubscriptions => lemma_skeleton_user_subscriptions(r),
    }
}

/// A route's method and template tell its variant.
proof fn lemma_route_kind(r: Route)
    ensures
        route_kind_of(r.method_of(), template(r)) == kind(r),
{
    match r {
        Route::AddFile { .. } => lemma_kind_add_file(r),
        Route::AddGameMedia { .. } => lemma_kind_add_game_media(r),
        Route::AddGameTags { .. } => lemma_kind_add_game_tags(r),
        Route::AddMod { .. } => lemma_kind_add_mod(r),
        Route::AddModComment { .. } => lemma_kind_add_mod_comment(r),
        Route::AddModDependencies { .. } => lemma_kind_add_mod_dependencies(r),
        Route::AddModMedia { .. } => lemma_kind_add_mod_media(r),
        Route::AddModMetadata { .. } => lemma_kind_add_mod_metadata(r),
        Route::AddModTags { .. } => lemma_kind_add_mod_tags(r),
        Route::DeleteFile { .. } => lemma_kind_delete_file(r),
        Route::DeleteGameTags { .. } => lemma_kind_delete_game_tags(r),
        Route::DeleteMod { .. } => lemma_kind_delete_mod(r),
        Route::DeleteModComment { .. } => lemma_kind_delete_mod_comment(r),
        Route::DeleteModDependencies { .. } => lemma_kind_delete_mod_dependencies(r),
        Route::DeleteModMedia { .. } => lemma_kind_delete_mod_media(r),
        Route::DeleteModMetadata { .. } => lemma_kind_delete_mod_metadata(r),
        Route::DeleteModTags { .. } => lemma_kind_delete_mod_tags(r),
        Route::EditFile { .. } => lemma_kind_edit_file(r),
        Route::EditMod { .. } => lemma_kind_edit_mod(r),
        Route::EditModComment { .. } => lemma_kind_edit_mod_comment(r),
        Route::ExternalAuthDiscord => lemma_kind_external_auth_discord(r),
        Route::ExternalAuthEpic => lemma_kind_external_auth_epic(r),
        Route::ExternalAuthGoogle => lemma_kind_external_auth_google(r),
        Route::ExternalAuthMeta => lemma_kind_external_auth_meta(r),
        Route::ExternalAuthOpenID => lemma_kind_external_auth_open_i_d(r),
        Route::ExternalAuthPSN => lemma_kind_external_auth_p_s_n(r),
        Route::ExternalAuthSteam => lemma_kind_external_auth_steam(r),
        Route::ExternalAuthSwitch => lemma_kind_external_auth_switch(r),
        Route::ExternalAuthXbox => lemma_kind_external_auth_xbox(r),
        Route::GetFile { .. } => lemma_kind_get_file(r),
        Route::GetFiles { .. } => lemma_kind_get_files(r),
        Route::GetGame { .. } => lemma_kind_get_game(r),
        Route::GetGames { .. } => lemma_kind_get_games(r),
        Route::GetGameStats { .. } => lemma_kind_get_game_stats(r),
        Route::GetGameTags { .. } => lemma_kind_get_game_tags(r),
        Route::GetMod { .. } => lemma_kind_get_mod(r),
        Route::GetModComment { .. } => lemma_kind_get_mod_comment(r),
        Route::GetModComments { .. } => lemma_kind_get_mod_comments(r),
        Route::GetModDependencies { .. } => lemma_kind_get_mod_dependencies(r),
        Route::GetModEvents { .. } => lemma_kind_get_mod_events(r),
        Route::GetModMetadata { .. } => lemma_kind_get_mod_metadata(r),
        Route::GetModStats { .. } => lemma_kind_get_mod_stats(r),
        Route::GetModTags { .. } => lemma_kind_get_mod_tags(r),
        Route::GetModTeamMembers { .. } => lemma_kind_get_mod_team_members(r),
        Route::GetMods { .. } => lemma_kind_get_mods(r),
        Route::GetModsEvents { .. } => lemma_kind_get_mods_events(r),
        Route::GetModsStats { .. } => lemma_kind_get_mods_stats(r),
        Route::ManagePlatformStatus { .. } => lemma_kind_manage_platform_status(r),
        Route::MuteUser { .. } => lemma_kind_mute_user(r),
        Route::OAuthEmailRequest => lemma_kind_o_auth_email_request(r),
        Route::OAuthEmailExchange => lemma_kind_o_auth_email_exchange(r),
        Route::OAuthLogout => lemma_kind_o_auth_logout(r),
        Route::RateMod { .. } => lemma_kind_rate_mod(r),
        Route::RenameGameTags { .. } => lemma_kind_rename_game_tags(r),
        Route::ReorderModMedia { .. } => lemma_kind_reorder_mod_media(r),
        Route::SubmitReport => lemma_kind_submit_report(r),
        Route::SubscribeToMod { .. } => lemma_kind_subscribe_to_mod(r),
        Route::Terms => lemma_kind_terms(r),
        Route::UnmuteUser { .. } => lemma_kind_unmute_user(r),
        Route::UnsubscribeFromMod { .. } => lemma_kind_unsubscribe_from_mod(r),
        Route::UpdateModCommentKarma { .. } => lemma_kind_update_mod_comment_karma(r),
        Route::UserAuthenticated => lemma_kind_user_authenticated(r),
        Route::UserEvents => lemma_kind_user_events(r),
        Route::UserFiles => lemma_kind_user_files(r),
        Route::UserGames => lemma_kind_user_games(r),
        Route::UserMods => lemma_kind_user_mods(r),
        Route::UserMuted => lemma_kind_user_muted(r),
        Route::UserRatings => lemma_kind_user_ratings(r),
        Route::UserSubscriptions => lemma_kind_user_subscriptions(r),
    }
}

/// Two routes of one variant with the same path are the same route.
proof fn lemma_same_route(r1: Route, r2: Route)
    requires
        kind(r1) == kind(r2),
        r1.path_text() == r2.path_text(),
    ensures
        r1 == r2,
{
    match r1 {
        Route::AddFile { .. } => {
            assert(r2 is AddFile);
            lemma_same_add_file(r1, r2);
        },
        Route::AddGameMedia { .. } => {
            assert(r2 is AddGameMedia);
            lemma_same_add_game_media(r1, r2);
        },
        Route::AddGameTags { .. } => {
            assert(r2 is AddGameTags);
            lemma_same_add_game_tags(r1, r2);
        },
        Route::AddMod { .. } => {
            assert(r2 is AddMod);
            lemma_same_add_mod(r1, r2);
        },
        Route::AddModComment { .. } => {
            assert(r2 is AddModComment);
            lemma_same_add_mod_comment(r1, r2);
        },
        Route::AddModDependencies { .. } => {
            assert(r2 is AddModDependencies);
            lemma_same_add_mod_dependencies(r1, r2);
        },
        Route::AddModMedia { .. } => {
            assert(r2 is AddModMedia);
            lemma_same_add_mod_media(r1, r2);
        },
        Route::AddModMetadata { .. } => {
            assert(r2 is AddModMetadata);
            lemma_same_add_mod_metadata(r1, r2);
        },
        Route::AddModTags { .. } => {
            assert(r2 is AddModTags);
            lemma_same_add_mod_tags(r1, r2);
        },
        Route::DeleteFile { .. } => {
            assert(r2 is DeleteFile);
            lemma_same_delete_file(r1, r2);
        },
        Route::DeleteGameTags { .. } => {
            assert(r2 is DeleteGameTags);
            lemma_same_delete_game_tags(r1, r2);
        },
        Route::DeleteMod { .. } => {
            assert(r2 is DeleteMod);
            lemma_same_delete_mod(r1, r2);
        },
        Route::DeleteModComment { .. } => {
            assert(r2 is DeleteModComment);
            lemma_same_delete_mod_comment(r1, r2);
        },
        Route::DeleteModDependencies { .. } => {
            assert(r2 is DeleteModDependencies);
            lemma_same_delete_mod_dependencies(r1, r2);
        },
        Route::DeleteModMedia { .. } => {
            assert(r2 is DeleteModMedia);
            lemma_same_delete_mod_media(r1, r2);
        },
        Route::DeleteModMetadata { .. } => {
            assert(r2 is DeleteModMetadata);
            lemma_same_delete_mod_metadata(r1, r2);
        },
        Route::DeleteModTags { .. } => {
            assert(r2 is DeleteModTags);
            lemma_same_delete_mod_tags(r1, r2);
        },
        Route::EditFile { .. } => {
            assert(r2 is EditFile);
            lemma_same_edit_file(r1, r2);
        },
        Route::EditMod { .. } => {
            assert(r2 is EditMod);
            lemma_same_edit_mod(r1, r2);
        },
        Route::EditModComment { .. } => {
            assert(r2 is EditModComment);
            lemma_same_edit_mod_comment(r1, r2);
        },
        Route::ExternalAuthDiscord => {
            assert(r2 is ExternalAuthDiscord);
            lemma_same_external_auth_discord(r1, r2);
        },
        Route::ExternalAuthEpic => {
            assert(r2 is ExternalAuthEpic);
            lemma_same_external_auth_epic(r1, r2);
        },
        Route::ExternalAuthGoogle => {
            assert(r2 is ExternalAuthGoogle);
            lemma_same_external_auth_google(r1, r2);
        },
        Route::ExternalAuthMeta => {
            assert(r2 is ExternalAuthMeta);
            lemma_same_external_auth_meta(r1, r2);
        },
        Route::ExternalAuthOpenID => {
            assert(r2 is ExternalAuthOpenID);
            lemma_same_external_auth_open_i_d(r1, r2);
        },
        Route::ExternalAuthPSN => {
            assert(r2 is ExternalAuthPSN);
            lemma_same_external_auth_p_s_n(r1, r2);
        },
        Route::ExternalAuthSteam => {
            assert(r2 is ExternalAuthSteam);
            lemma_same_external_auth_steam(r1, r2);
        },
        Route::ExternalAuthSwitch => {
            assert(r2 is ExternalAuthSwitch);
            lemma_same_external_auth_switch(r1, r2);
        },
        Route::ExternalAuthXbox => {
            assert(r2 is ExternalAuthXbox);
            lemma_same_external_auth_xbox(r1, r2);
        },
        Route::GetFile { .. } => {
            assert(r2 is GetFile);
            lemma_same_get_file(r1, r2);
        },
        Route::GetFiles { .. } => {
            assert(r2 is GetFiles);
            lemma_same_get_files(r1, r2);
        },
        Route::GetGame { .. } => {
            assert(r2 is GetGame);
            lemma_same_get_game(r1, r2);
        },
        Route::GetGames { .. } => {
            assert(r2 is GetGames);
            lemma_same_get_games(r1, r2);
        },
        Route::GetGameStats { .. } => {
            assert(r2 is GetGameStats);
            lemma_same_get_game_stats(r1, r2);
        },
        Route::GetGameTags { .. } => {
            assert(r2 is GetGameTags);
            lemma_same_get_game_tags(r1, r2);
        },
        Route::GetMod { .. } => {
            assert(r2 is GetMod);
            lemma_same_get_mod(r1, r2);
        },
        Route::GetModComment { .. } => {
            assert(r2 is GetModComment);
            lemma_same_get_mod_comment(r1, r2);
        },
        Route::GetModComments { .. } => {
            assert(r2 is GetModComments);
            lemma_same_get_mod_comments(r1, r2);
        },
        Route::GetModDependencies { .. } => {
            assert(r2 is GetModDependencies);
            lemma_same_get_mod_dependencies(r1, r2);
        },
        Route::GetModEvents { .. } => {
            assert(r2 is GetModEvents);
            lemma_same_get_mod_events(r1, r2);
        },
        Route::GetModMetadata { .. } => {
            assert(r2 is GetModMetadata);
            lemma_same_get_mod_metadata(r1, r2);
        },
        Route::GetModStats { .. } => {
            assert(r2 is GetModStats);
            lemma_same_get_mod_stats(r1, r2);
        },
        Route::GetModTags { .. } => {
            assert(r2 is GetModTags);
            lemma_same_get_mod_tags(r1, r2);
        },
        Route::GetModTeamMembers { .. } => {
            assert(r2 is GetModTeamMembers);
            lemma_same_get_mod_team_members(r1, r2);
        },
        Route::GetMods { .. } => {
            assert(r2 is GetMods);
            lemma_same_get_mods(r1, r2);
        },
        Route::GetModsEvents { .. } => {
            assert(r2 is GetModsEvents);
            lemma_same_get_mods_events(r1, r2);
        },
        Route::GetModsStats { .. } => {
            assert(r2 is GetModsStats);
            lemma_same_get_mods_stats(r1, r2);
        },
        Route::ManagePlatformStatus { .. } => {
            assert(r2 is ManagePlatformStatus);
            lemma_same_manage_platform_status(r1, r2);
        },
        Route::MuteUser { .. } => {
            assert(r2 is MuteUser);
            lemma_same_mute_user(r1, r2);
        },
        Route::OAuthEmailRequest => {
            assert(r2 is OAuthEmailRequest);
            lemma_same_o_auth_email_request(r1, r2);
        },
        Route::OAuthEmailExchange => {
            assert(r2 is OAuthEmailExchange);
            lemma_same_o_auth_email_exchange(r1, r2);
        },
        Route::OAuthLogout => {
            assert(r2 is OAuthLogout);
            lemma_same_o_auth_logout(r1, r2);
        },
        Route::RateMod { .. } => {
            assert(r2 is RateMod);
            lemma_same_rate_mod(r1, r2);
        },
        Route::RenameGameTags { .. } => {
            assert(r2 is RenameGameTags);
            lemma_same_rename_game_tags(r1, r2);
        },
        Route::ReorderModMedia { .. } => {
            assert(r2 is ReorderModMedia);
            lemma_same_reorder_mod_media(r1, r2);
        },
        Route::SubmitReport => {
            assert(r2 is SubmitReport);
            lemma_same_submit_report(r1, r2);
        },
        Route::SubscribeToMod { .. } => {
            assert(r2 is SubscribeToMod);
            lemma_same_subscribe_to_mod(r1, r2);
        },
        Route::Terms => {
            assert(r2 is Terms);
            lemma_same_terms(r1, r2);
        },
        Route::UnmuteUser { .. } => {
            assert(r2 is UnmuteUser);
            lemma_same_unmute_user(r1, r2);
        },
        Route::UnsubscribeFromMod { .. } => {
            assert(r2 is UnsubscribeFromMod);
            lemma_same_unsubscribe_from_mod(r1, r2);
        },
        Route::UpdateModCommentKarma { .. } => {
            assert(r2 is UpdateModCommentKarma);
            lemma_same_update_mod_comment_karma(r1, r2);
        },
        Route::UserAuthenticated => {
            assert(r2 is UserAuthenticated);
            lemma_same_user_authenticated(r1, r2);
        },
        Route::UserEvents => {
            assert(r2 is UserEvents);
            lemma_same_user_events(r1, r2);
        },
        Route::UserFiles => {
            assert(r2 is UserFiles);
            lemma_same_user_files(r1, r2);
        },
        Route::UserGames => {
            assert(r2 is UserGames);
            lemma_same_user_games(r1, r2);
        },
        Route::UserMods => {
            assert(r2 is UserMods);
            lemma_same_user_mods(r1, r2);
        },
        Route::UserMuted => {
            assert(r2 is UserMuted);
            lemma_same_user_muted(r1, r2);
        },
        Route::UserRatings => {
            assert(r2 is UserRatings);
            lemma_same_user_ratings(r1, r2);
        },
        Route::UserSubscriptions => {
            assert(r2 is UserSubscriptions);
            lemma_same_user_subscriptions(r1, r2);
        },
    }
}

/// The method and the path identify a route: two routes sent with the same
/// method to the same path are the same route, with the same IDs and
/// flags. So two different routes with the same path, such as muting and
/// unmuting a user, differ in their method.
pub proof fn lemma_method_and_path_identify(r1: Route, r2: Route)
    requires
        r1.method_of() == r2.method_of(),
        r1.path_text() == r2.path_text(),
    ensures
        r1 == r2,
{
    lemma_route_skeleton(r1);
    lemma_route_skeleton(r2);
    lemma_route_kind(r1);
    lemma_route_kind(r2);
    lemma_same_route(r1, r2);
}

#[verifier::spinoff_prover]
#[verifier::rlimit(60)]
proof fn lemma_skeleton_add_file(r: Route)
    requires
        r is AddFile,
    ensures
        skeleton(r.path_text()) == template(r),
{
    match r {
        Route::AddFile { game_id, mod_id } => {
            lemma_free_18();
            lemma_free_32();
            lemma_free_15();
            lemma_skeleton_seg2("/games/"@, game_id@, "/mods/"@, mod_id@, "/files"@, Seq::<char>::empty());
            assert(seg2("/games/"@, game_id@ as nat, "/mods/"@, mod_id@ as nat, "/files"@) + Seq::<char>::empty() =~= seg2("/games/"@, game_id@ as nat, "/mods/"@, mod_id@ as nat, "/files"@));
            assert(tseg2("/games/"@, "/mods/"@, "/files"@) + Seq::<char>::empty() =~= tseg2("/games/"@, "/mods/"@, "/files"@));
        },
        _ => {},
    }
}

#[verifier::spinoff_prover]
#[verifier::rlimit(60)]
proof fn lemma_kind_add_file(r: Route)
    requires
        r is AddFile,
    ensures
        route_kind_of(r.method_of(), template(r)) == kind(r),
{
    reveal_strlit("/games/"); reveal_strlit("/mods/"); reveal_strlit("/files");
}

#[verifier::spinoff_prover]
#[verifier::rlimit(60)]
proof fn lemma_same_add_file(r1: Route, r2: Route)
    requires
        r1 is AddFile,
        r2 is AddFile,
        r1.path_text() == r2.path_text(),
    ensures
        r1 == r2,
{
    match (r1, r2) {
        (Route::AddFile { game_id: game_id_1, mod_id: mod_id_1 }, Route::AddFile { game_id: game_id_2, mod_id: mod_id_2 }) => {
            lemma_free_18();
            lemma_free_32();
            lemma_free_15();
            assert(seg2("/games/"@, game_id_1@ as nat, "/mods/"@, mod_id_1@ as nat, "/files"@) + Seq::<char>::empty() =~= seg2("/games/"@, game_id_1@ as nat, "/mods/"@, mod_id_1@ as nat, "/files"@));
            assert(seg2("/games/"@, game_id_2@ as nat, "/mods/"@, mod_id_2@ as nat, "/files"@) + Seq::<char>::empty() =~= seg2("/games/"@, game_id_2@ as nat, "/mods/"@, mod_id_2@ as nat, "/files"@));
            lemma_apart_concat("/files"@, Seq::<char>::empty());
            lemma_apart_concat("/files"@, Seq::<char>::empty());
            lemma_same_seg2("/games/"@, game_id_1@, game_id_2@, "/mods/"@, mod_id_1@, mod_id_2@, "/files"@, Seq::<char>::empty(), Seq::<char>::empty());
            lemma_id_eq(game_id_1, game_id_2);
            lemma_id_eq(mod_id_1, mod_id_2);
        },
        _ => {},
    }
}

#[verifier::spinoff_prover]
#[verifier::rlimit(60)]
proof fn lemma_skeleton_add_game_media(r: Route)
    requires
        r is AddGameMedia,
    ensures
        skeleton(r.path_text()) == template(r),
{
    match r {
        Route::AddGameMedia { game_id } => {
            lemma_free_18();
            lemma_free_28();
            lemma_skeleton_seg1("/games/"@, game_id@, "/media"@, Seq::<char>::empty());
            assert(seg1("/games/"@, game_id@ as nat, "/media"@) + Seq::<char>::empty() =~= seg1("/games/"@, game_id@ as nat, "/media"@));
            assert(tseg1("/games/"@, "/media"@) + Seq::<char>::empty() =~= tseg1("/games/"@, "/media"@));
        },
        _ => {},
    }
}

#[verifier::spinoff_prover]
#[verifier::rlimit(60)]
proof fn lemma_kind_add_game_media(r: Route)
    requires
        r is AddGameMedia,
    ensures
        route_kind_of(r.method_of(), template(r)) == kind(r),
{
    reveal_strlit("/games/"); reveal_strlit("/media");
}

#[verifier::spinoff_prover]
#[verifier::rlimit(60)]
proof fn lemma_same_add_game_media(r1: Route, r2: Route)
    requires
        r1 is AddGameMedia,
        r2 is AddGameMedia,
        r1.path_text() == r2.path_text(),
    ensures
        r1 == r2,
{
    match (r1, r2) {
        (Route::AddGameMedia { game_id: game_id_1 }, Route::AddGameMedia { game_id: game_id_2 }) => {
            lemma_free_18();
            lemma_free_28();
            assert(seg1("/games/"@, game_id_1@ as nat, "/media"@) + Seq::<char>::empty() =~= seg1("/games/"@, game_id_1@ as nat, "/media"@));
            assert(seg1("/games/"@, game_id_2@ as nat, "/media"@) + Seq::<char>::empty() =~= seg1("/games/"@, game_id_2@ as nat, "/media"@));
            lemma_apart_concat("/media"@, Seq::<char>::empty());
            lemma_apart_concat("/media"@, Seq::<char>::empty());
            lemma_same_seg1("/games/"@, game_id_1@, game_id_2@, "/media"@, Seq::<char>::empty(), Seq::<char>::empty());
            lemma_id_eq(game_id_1, game_id_2);
        },
        _ => {},
    }
}

#[verifier::spinoff_prover]
#[verifier::rlimit(60)]
proof fn lemma_skeleton_add_game_tags(r: Route)
    requires
        r is AddGameTags,
    ensures
        skeleton(r.path_text()) == template(r),
{
    match r {
        Route::AddGameTags { game_id } => {
            lemma_free_18();
            lemma_free_44();
            lemma_skeleton_seg1("/games/"@, game_id@, "/tags"@, Seq::<char>::empty());
            assert(seg1("/games/"@, game_id@ as nat, "/tags"@) + Seq::<char>::empty() =~= seg1("/games/"@, game_id@ as nat, "/tags"@));
            assert(tseg1("/games/"@, "/tags"@) + Seq::<char>::empty() =~= tseg1("/games/"@, "/tags"@));
        },
        _ => {},
    }
}

#[verifier::spinoff_prover]
#[verifier::rlimit(60)]
proof fn lemma_kind_add_game_tags(r: Route)
    requires
        r is AddGameTags,
    ensures
        route_kind_of(r.method_of(), template(r)) == kind(r),
{
    reveal_strlit("/games/"); reveal_strlit("/tags");
}

#[verifier::spinoff_prover]
#[verifier::rlimit(60)]
proof fn lemma_same_add_game_tags(r1: Route, r2: Route)
    requires
        r1 is AddGameTags,
        r2 is AddGameTags,
        r1.path_text() == r2.path_text(),
    ensures
        r1 == r2,
{
    match (r1, r2) {
        (Route::AddGameTags { game_id: game_id_1 }, Route::AddGameTags { game_id: game_id_2 }) => {
            lemma_free_18();
            lemma_free_44();
            assert(seg1("/games/"@, game_id_1@ as nat, "/tags"@) + Seq::<char>::empty() =~= seg1("/games/"@, game_id_1@ as nat, "/tags"@));
            assert(seg1("/games/"@, game_id_2@ as nat, "/tags"@) + Seq::<char>::empty() =~= seg1("/games/"@, game_id_2@ as nat, "/tags"@));
            lemma_apart_concat("/tags"@, Seq::<char>::empty());
            lemma_apart_concat("/tags"@, Seq::<char>::empty());
            lemma_same_seg1("/games/"@, game_id_1@, game_id_2@, "/tags"@, Seq::<char>::empty(), Seq::<char>::empty());
            lemma_id_eq(game_id_1, game_id_2);
        },
        _ => {},
    }
}

#[verifier::spinoff_prover]
#[verifier::rlimit(60)]
proof fn lemma_skeleton_add_mod(r: Route)
    requires
        r is AddMod,
    ensures
        skeleton(r.path_text()) == template(r),
{
    match r {
        Route::AddMod { game_id } => {
            lemma_free_18();
            lemma_free_31();
            lemma_skeleton_seg1("/games/"@, game_id@, "/mods"@, Seq::<char>::empty());
            assert(seg1("/games/"@, game_id@ as nat, "/mods"@) + Seq::<char>::empty() =~= seg1("/games/"@, game_id@ as nat, "/mods"@));
            assert(tseg1("/games/"@, "/mods"@) + Seq::<char>::empty() =~= tseg1("/games/"@, "/mods"@));
        },
        _ => {},
    }
}

#[verifier::spinoff_prover]
#[verifier::rlimit(60)]
proof fn lemma_kind_add_mod(r: Route)
    requires
        r is AddMod,
    ensures
        route_kind_of(r.method_of(), template(r)) == kind(r),
{
    reveal_strlit("/games/"); reveal_strlit("/mods");
}

#[verifier::spinoff_prover]
#[verifier::rlimit(60)]
proof fn lemma_same_add_mod(r1: Route, r2: Route)
    requires
        r1 is AddMod,
        r2 is AddMod,
        r1.path_text() == r2.path_text(),
    ensures
        r1 == r2,
{
    match (r1, r2) {
        (Route::AddMod { game_id: game_id_1 }, Route::AddMod { game_id: game_id_2 }) => {
            lemma_free_18();
            lemma_free_31();
            assert(seg1("/games/"@, game_id_1@ as nat, "/mods"@) + Seq::<char>::empty() =~= seg1("/games/"@, game_id_1@ as nat, "/mods"@));
            assert(seg1("/games/"@, game_id_2@ as nat, "/mods"@) + Seq::<char>::empty() =~= seg1("/games/"@, game_id_2@ as nat, "/mods"@));
            lemma_apart_concat("/mods"@, Seq::<char>::empty());
            lemma_apart_concat("/mods"@, Seq::<char>::empty());
            lemma_same_seg1("/games/"@, game_id_1@, game_id_2@, "/mods"@, Seq::<char>::empty(), Seq::<char>::empty());
            lemma_id_eq(game_id_1, game_id_2);
        },
        _ => {},
    }
}

#[verifier::spinoff_prover]
#[verifier::rlimit(60)]
proof fn lemma_skeleton_add_mod_comment(r: Route)
    requires
        r is AddModComment,
    ensures
        skeleton(r.path_text()) == template(r),
{
    match r {
        Route::AddModComment { game_id, mod_id } => {
            lemma_free_18();
            lemma_free_32();
            lemma_free_2();
            lemma_skeleton_seg2("/games/"@, game_id@, "/mods/"@, mod_id@, "/comments"@, Seq::<char>::empty());
            assert(seg2("/games/"@, game_id@ as nat, "/mods/"@, mod_id@ as nat, "/comments"@) + Seq::<char>::empty() =~= seg2("/games/"@, game_id@ as nat, "/mods/"@, mod_id@ as nat, "/comments"@));
            assert(tseg2("/games/"@, "/mods/"@, "/comments"@) + Seq::<char>::empty() =~= tseg2("/games/"@, "/mods/"@, "/comments"@));
        },
        _ => {},
    }
}

#[verifier::spinoff_prover]
#[verifier::rlimit(60)]
proof fn lemma_kind_add_mod_comment(r: Route)
    requires
        r is AddModComment,
    ensures
        route_kind_of(r.method_of(), template(r)) == kind(r),
{
    reveal_strlit("/games/"); reveal_strlit("/mods/"); reveal_strlit("/comments");
}

#[verifier::spinoff_prover]
#[verifier::rlimit(60)]
proof fn lemma_same_add_mod_comment(r1: Route, r2: Route)
    requires
        r1 is AddModComment,
        r2 is AddModComment,
        r1.path_text() == r2.path_text(),
    ensures
        r1 == r2,
{
    match (r1, r2) {
        (Route::AddModComment { game_id: game_id_1, mod_id: mod_id_1 }, Route::AddModComment { game_id: game_id_2, mod_id: mod_id_2 }) => {
            lemma_free_18();
            lemma_free_32();
            lemma_free_2();
            assert(seg2("/games/"@, game_id_1@ as nat, "/mods/"@, mod_id_1@ as nat, "/comments"@) + Seq::<char>::empty() =~= seg2("/games/"@, game_id_1@ as nat, "/mods/"@, mod_id_1@ as nat, "/comments"@));
            assert(seg2("/games/"@, game_id_2@ as nat, "/mods/"@, mod_id_2@ as nat, "/comments"@) + Seq::<char>::empty() =~= seg2("/games/"@, game_id_2@ as nat, "/mods/"@, mod_id_2@ as nat, "/comments"@));
            lemma_apart_concat("/comments"@, Seq::<char>::empty());
            lemma_apart_concat("/comments"@, Seq::<char>::empty());
            lemma_same_seg2("/games/"@, game_id_1@, game_id_2@, "/mods/"@, mod_id_1@, mod_id_2@, "/comments"@, Seq::<char>::empty(), Seq::<char>::empty());
            lemma_id_eq(game_id_1, game_id_2);
            lemma_id_eq(mod_id_1, mod_id_2);
        },
        _ => {},
    }
}

#[verifier::spinoff_prover]
#[verifier::rlimit(60)]
proof fn lemma_skeleton_add_mod_dependencies(r: Route)
    requires
        r is AddModDependencies,
    ensures
        skeleton(r.path_text()) == template(r),
{
    match r {
        Route::AddModDependencies { game_id, mod_id } => {
            lemma_free_18();
            lemma_free_32();
            lemma_free_4();
            lemma_skeleton_seg2("/games/"@, game_id@, "/mods/"@, mod_id@, "/dependencies"@, Seq::<char>::empty());
            assert(seg2("/games/"@, game_id@ as nat, "/mods/"@, mod_id@ as nat, "/dependencies"@) + Seq::<char>::empty() =~= seg2("/games/"@, game_id@ as nat, "/mods/"@, mod_id@ as nat, "/dependencies"@));
            assert(tseg2("/games/"@, "/mods/"@, "/dependencies"@) + Seq::<char>::empty() =~= tseg2("/games/"@, "/mods/"@, "/dependencies"@));
        },
        _ => {},
    }
}

#[verifier::spinoff_prover]
#[verifier::rlimit(60)]
proof fn lemma_kind_add_mod_dependencies(r: Route)
    requires
        r is AddModDependencies,
    ensures
        route_kind_of(r.method_of(), template(r)) == kind(r),
{
    reveal_strlit("/games/"); reveal_strlit("/mods/"); reveal_strlit("/dependencies");
}

#[verifier::spinoff_prover]
#[verifier::rlimit(60)]
proof fn lemma_same_add_mod_dependencies(r1: Route, r2: Route)
    requires
        r1 is AddModDependencies,
        r2 is AddModDependencies,
        r1.path_text() == r2.path_text(),
    ensures
        r1 == r2,
{
    match (r1, r2) {
        (Route::AddModDependencies { game_id: game_id_1, mod_id: mod_id_1 }, Route::AddModDependencies { game_id: game_id_2, mod_id: mod_id_2 }) => {
            lemma_free_18();
            lemma_free_32();
            lemma_free_4();
            assert(seg2("/games/"@, game_id_1@ as nat, "/mods/"@, mod_id_1@ as nat, "/dependencies"@) + Seq::<char>::empty() =~= seg2("/games/"@, game_id_1@ as nat, "/mods/"@, mod_id_1@ as nat, "/dependencies"@));
            assert(seg2("/games/"@, game_id_2@ as nat, "/mods/"@, mod_id_2@ as nat, "/dependencies"@) + Seq::<char>::empty() =~= seg2("/games/"@, game_id_2@ as nat, "/mods/"@, mod_id_2@ as nat, "/dependencies"@));
            lemma_apart_concat("/dependencies"@, Seq::<char>::empty());
            lemma_apart_concat("/dependencies"@, Seq::<char>::empty());
            lemma_same_seg2("/games/"@, game_id_1@, game_id_2@, "/mods/"@, mod_id_1@, mod_id_2@, "/dependencies"@, Seq::<char>::empty(), Seq::<char>::empty());
            lemma_id_eq(game_id_1, game_id_2);
            lemma_id_eq(mod_id_1, mod_id_2);
        },
        _ => {},
    }
}

#[verifier::spinoff_prover]
#[verifier::rlimit(60)]
proof fn lemma_skeleton_add_mod_media(r: Route)
    requires
        r is AddModMedia,
    ensures
        skeleton(r.path_text()) == template(r),
{
    match r {
        Route::AddModMedia { game_id, mod_id } => {
            lemma_free_18();
            lemma_free_32();
            lemma_free_28();
            lemma_skeleton_seg2("/games/"@, game_id@, "/mods/"@, mod_id@, "/media"@, Seq::<char>::empty());
            assert(seg2("/games/"@, game_id@ as nat, "/mods/"@, mod_id@ as nat, "/media"@) + Seq::<char>::empty() =~= seg2("/games/"@, game_id@ as nat, "/mods/"@, mod_id@ as nat, "/media"@));
            assert(tseg2("/games/"@, "/mods/"@, "/media"@) + Seq::<char>::empty() =~= tseg2("/games/"@, "/mods/"@, "/media"@));
        },
        _ => {},
    }
}

#[verifier::spinoff_prover]
#[verifier::rlimit(60)]
proof fn lemma_kind_add_mod_media(r: Route)
    requires
        r is AddModMedia,
    ensures
        route_kind_of(r.method_of(), template(r)) == kind(r),
{
    reveal_strlit("/games/"); reveal_strlit("/mods/"); reveal_strlit("/media");
}

#[verifier::spinoff_prover]
#[verifier::rlimit(60)]
proof fn lemma_same_add_mod_media(r1: Route, r2: Route)
    requires
        r1 is AddModMedia,
        r2 is AddModMedia,
        r1.path_text() == r2.path_text(),
    ensures
        r1 == r2,
{
    match (r1, r2) {
        (Route::AddModMedia { game_id: game_id_1, mod_id: mod_id_1 }, Route::AddModMedia { game_id: game_id_2, mod_id: mod_id_2 }) => {
            lemma_free_18();
            lemma_free_32();
            lemma_free_28();
            assert(seg2("/games/"@, game_id_1@ as nat, "/mods/"@, mod_id_1@ as nat, "/media"@) + Seq::<char>::empty() =~= seg2("/games/"@, game_id_1@ as nat, "/mods/"@, mod_id_1@ as nat, "/media"@));
            assert(seg2("/games/"@, game_id_2@ as nat, "/mods/"@, mod_id_2@ as nat, "/media"@) + Seq::<char>::empty() =~= seg2("/games/"@, game_id_2@ as nat, "/mods/"@, mod_id_2@ as nat, "/media"@));
            lemma_apart_concat("/media"@, Seq::<char>::empty());
            lemma_apart_concat("/media"@, Seq::<char>::empty());
            lemma_same_seg2("/games/"@, game_id_1@, game_id_2@, "/mods/"@, mod_id_1@, mod_id_2@, "/media"@, Seq::<char>::empty(), Seq::<char>::empty());
            lemma_id_eq(game_id_1, game_id_2);
            lemma_id_eq(mod_id_1, mod_id_2);
        },
        _ => {},
    }
}

#[verifier::spinoff_prover]
#[verifier::rlimit(60)]
proof fn lemma_skeleton_add_mod_metadata(r: Route)
    requires
        r is AddModMetadata,
    ensures
        skeleton(r.path_text()) == template(r),
{
    match r {
        Route::AddModMetadata { game_id, mod_id } => {
            lemma_free_18();
            lemma_free_32();
            lemma_free_30();
            lemma_skeleton_seg2("/games/"@, game_id@, "/mods/"@, mod_id@, "/metadatakvp"@, Seq::<char>::empty());
            assert(seg2("/games/"@, game_id@ as nat, "/mods/"@, mod_id@ as nat, "/metadatakvp"@) + Seq::<char>::empty() =~= seg2("/games/"@, game_id@ as nat, "/mods/"@, mod_id@ as nat, "/metadatakvp"@));
            assert(tseg2("/games/"@, "/mods/"@, "/metadatakvp"@) + Seq::<char>::empty() =~= tseg2("/games/"@, "/mods/"@, "/metadatakvp"@));
        },
        _ => {},
    }
}

#[verifier::spinoff_prover]
#[verifier::rlimit(60)]
proof fn lemma_kind_add_mod_metadata(r: Route)
    requires
        r is AddModMetadata,
    ensures
        route_kind_of(r.method_of(), template(r)) == kind(r),
{
    reveal_strlit("/games/"); reveal_strlit("/mods/"); reveal_strlit("/metadatakvp");
}

#[verifier::spinoff_prover]
#[verifier::rlimit(60)]
proof fn lemma_same_add_mod_metadata(r1: Route, r2: Route)
    requires
        r1 is AddModMetadata,
        r2 is AddModMetadata,
        r1.path_text() == r2.path_text(),
    ensures
        r1 == r2,
{
    match (r1, r2) {
        (Route::AddModMetadata { game_id: game_id_1, mod_id: mod_id_1 }, Route::AddModMetadata { game_id: game_id_2, mod_id: mod_id_2 }) => {
            lemma_free_18();
            lemma_free_32();
            lemma_free_30();
            assert(seg2("/games/"@, game_id_1@ as nat, "/mods/"@, mod_id_1@ as nat, "/metadatakvp"@) + Seq::<char>::empty() =~= seg2("/games/"@, game_id_1@ as nat, "/mods/"@, mod_id_1@ as nat, "/metadatakvp"@));
            assert(seg2("/games/"@, game_id_2@ as nat, "/mods/"@, mod_id_2@ as nat, "/metadatakvp"@) + Seq::<char>::empty() =~= seg2("/games/"@, game_id_2@ as nat, "/mods/"@, mod_id_2@ as nat, "/metadatakvp"@));
            lemma_apart_concat("/metadatakvp"@, Seq::<char>::empty());
            lemma_apart_concat("/metadatakvp"@, Seq::<char>::empty());
            lemma_same_seg2("/games/"@, game_id_1@, game_id_2@, "/mods/"@, mod_id_1@, mod_id_2@, "/metadatakvp"@, Seq::<char>::empty(), Seq::<char>::empty());
            lemma_id_eq(game_id_1, game_id_2);
            lemma_id_eq(mod_id_1, mod_id_2);
        },
        _ => {},
    }
}

#[verifier::spinoff_prover]
#[verifier::rlimit(60)]
proof fn lemma_skeleton_add_mod_tags(r: Route)
    requires
        r is AddModTags,
    ensures
        skeleton(r.path_text()) == template(r),
{
    match r {
        Route::AddModTags { game_id, mod_id } => {
            lemma_free_18();
            lemma_free_32();
            lemma_free_44();
            lemma_skeleton_seg2("/games/"@, game_id@, "/mods/"@, mod_id@, "/tags"@, Seq::<char>::empty());
            assert(seg2("/games/"@, game_id@ as nat, "/mods/"@, mod_id@ as nat, "/tags"@) + Seq::<char>::empty() =~= seg2("/games/"@, game_id@ as nat, "/mods/"@, mod_id@ as nat, "/tags"@));
            assert(tseg2("/games/"@, "/mods/"@, "/tags"@) + Seq::<char>::empty() =~= tseg2("/games/"@, "/mods/"@, "/tags"@));
        },
        _ => {},
    }
}

#[verifier::spinoff_prover]
#[verifier::rlimit(60)]
proof fn lemma_kind_add_mod_tags(r: Route)
    requires
        r is AddModTags,
    ensures
        route_kind_of(r.method_of(), template(r)) == kind(r),
{
    reveal_strlit("/games/"); reveal_strlit("/mods/"); reveal_strlit("/tags");
}

#[verifier::spinoff_prover]
#[verifier::rlimit(60)]
proof fn lemma_same_add_mod_tags(r1: Route, r2: Route)
    requires
        r1 is AddModTags,
        r2 is AddModTags,
        r1.path_text() == r2.path_text(),
    ensures
        r1 == r2,
{
    match (r1, r2) {
        (Route::AddModTags { game_id: game_id_1, mod_id: mod_id_1 }, Route::AddModTags { game_id: game_id_2, mod_id: mod_id_2 }) => {
            lemma_free_18();
            lemma_free_32();
            lemma_free_44();
            assert(seg2("/games/"@, game_id_1@ as nat, "/mods/"@, mod_id_1@ as nat, "/tags"@) + Seq::<char>::empty() =~= seg2("/games/"@, game_id_1@ as nat, "/mods/"@, mod_id_1@ as nat, "/tags"@));
            assert(seg2("/games/"@, game_id_2@ as nat, "/mods/"@, mod_id_2@ as nat, "/tags"@) + Seq::<char>::empty() =~= seg2("/games/"@, game_id_2@ as nat, "/mods/"@, mod_id_2@ as nat, "/tags"@));
            lemma_apart_concat("/tags"@, Seq::<char>::empty());
            lemma_apart_concat("/tags"@, Seq::<char>::empty());
            lemma_same_seg2("/games/"@, game_id_1@, game_id_2@, "/mods/"@, mod_id_1@, mod_id_2@, "/tags"@, Seq::<char>::empty(), Seq::<char>::empty());
            lemma_id_eq(game_id_1, game_id_2);
            lemma_id_eq(mod_id_1, mod_id_2);
        },
        _ => {},
    }
}

#[verifier::spinoff_prover]
#[verifier::rlimit(60)]
proof fn lemma_skeleton_delete_file(r: Route)
    requires
        r is DeleteFile,
    ensures
        skeleton(r.path_text()) == template(r),
{
    match r {
        Route::DeleteFile { game_id, mod_id, file_id } => {
            lemma_free_18();
            lemma_free_32();
            lemma_free_16();
            lemma_free_0();
            lemma_skeleton_seg3("/games/"@, game_id@, "/mods/"@, mod_id@, "/files/"@, file_id@, ""@, Seq::<char>::empty());
            assert(seg3("/games/"@, game_id@ as nat, "/mods/"@, mod_id@ as nat, "/files/"@, file_id@ as nat, ""@) + Seq::<char>::empty() =~= seg3("/games/"@, game_id@ as nat, "/mods/"@, mod_id@ as nat, "/files/"@, file_id@ as nat, ""@));
            assert(tseg3("/games/"@, "/mods/"@, "/files/"@, ""@) + Seq::<char>::empty() =~= tseg3("/games/"@, "/mods/"@, "/files/"@, ""@));
        },
        _ => {},
    }
}

#[verifier::spinoff_prover]
#[verifier::rlimit(60)]
proof fn lemma_kind_delete_file(r: Route)
    requires
        r is DeleteFile,
    ensures
        route_kind_of(r.method_of(), template(r)) == kind(r),
{
    reveal_strlit("/games/"); reveal_strlit("/mods/"); reveal_strlit("/files/"); reveal_strlit("");
}

#[verifier::spinoff_prover]
#[verifier::rlimit(60)]
proof fn lemma_same_delete_file(r1: Route, r2: Route)
    requires
        r1 is DeleteFile,
        r2 is DeleteFile,
        r1.path_text() == r2.path_text(),
    ensures
        r1 == r2,
{
    match (r1, r2) {
        (Route::DeleteFile { game_id: game_id_1, mod_id: mod_id_1, file_id: file_id_1 }, Route::DeleteFile { game_id: game_id_2, mod_id: mod_id_2, file_id: file_id_2 }) => {
            lemma_free_18();
            lemma_free_32();
            lemma_free_16();
            lemma_free_0();
            assert(seg3("/games/"@, game_id_1@ as nat, "/mods/"@, mod_id_1@ as nat, "/files/"@, file_id_1@ as nat, ""@) + Seq::<char>::empty() =~= seg3("/games/"@, game_id_1@ as nat, "/mods/"@, mod_id_1@ as nat, "/files/"@, file_id_1@ as nat, ""@));
            assert(seg3("/games/"@, game_id_2@ as nat, "/mods/"@, mod_id_2@ as nat, "/files/"@, file_id_2@ as nat, ""@) + Seq::<char>::empty() =~= seg3("/games/"@, game_id_2@ as nat, "/mods/"@, mod_id_2@ as nat, "/files/"@, file_id_2@ as nat, ""@));
            lemma_same_seg3("/games/"@, game_id_1@, game_id_2@, "/mods/"@, mod_id_1@, mod_id_2@, "/files/"@, file_id_1@, file_id_2@, ""@, Seq::<char>::empty(), Seq::<char>::empty());
            lemma_id_eq(game_id_1, game_id_2);
            lemma_id_eq(mod_id_1, mod_id_2);
            lemma_id_eq(file_id_1, file_id_2);
        },
        _ => {},
    }
}

#[verifier::spinoff_prover]
#[verifier::rlimit(60)]
proof fn lemma_skeleton_delete_game_tags(r: Route)
    requires
        r is DeleteGameTags,
    ensures
        skeleton(r.path_text()) == template(r),
{
    match r {
        Route::DeleteGameTags { game_id } => {
            lemma_free_18();
            lemma_free_44();
            lemma_skeleton_seg1("/games/"@, game_id@, "/tags"@, Seq::<char>::empty());
            assert(seg1("/games/"@, game_id@ as nat, "/tags"@) + Seq::<char>::empty() =~= seg1("/games/"@, game_id@ as nat, "/tags"@));
            assert(tseg1("/games/"@, "/tags"@) + Seq::<char>::empty() =~= tseg1("/games/"@, "/tags"@));
        },
        _ => {},
    }
}

#[verifier::spinoff_prover]
#[verifier::rlimit(60)]
proof fn lemma_kind_delete_game_tags(r: Route)
    requires
        r is DeleteGameTags,
    ensures
        route_kind_of(r.method_of(), template(r)) == kind(r),
{
    reveal_strlit("/games/"); reveal_strlit("/tags");
}

#[verifier::spinoff_prover]
#[verifier::rlimit(60)]
proof fn lemma_same_delete_game_tags(r1: Route, r2: Route)
    requires
        r1 is DeleteGameTags,
        r2 is DeleteGameTags,
        r1.path_text() == r2.path_text(),
    ensures
        r1 == r2,
{
    match (r1, r2) {
        (Route::DeleteGameTags { game_id: game_id_1 }, Route::DeleteGameTags { game_id: game_id_2 }) => {
            lemma_free_18();
            lemma_free_44();
            assert(seg1("/games/"@, game_id_1@ as nat, "/tags"@) + Seq::<char>::empty() =~= seg1("/games/"@, game_id_1@ as nat, "/tags"@));
            assert(seg1("/games/"@, game_id_2@ as nat, "/tags"@) + Seq::<char>::empty() =~= seg1("/games/"@, game_id_2@ as nat, "/tags"@));
            lemma_apart_concat("/tags"@, Seq::<char>::empty());
            lemma_apart_concat("/tags"@, Seq::<char>::empty());
            lemma_same_seg1("/games/"@, game_id_1@, game_id_2@, "/tags"@, Seq::<char>::empty(), Seq::<char>::empty());
            lemma_id_eq(game_id_1, game_id_2);
        },
        _ => {},
    }
}

#[verifier::spinoff_prover]
#[verifier::rlimit(60)]
proof fn lemma_skeleton_delete_mod(r: Route)
    requires
        r is DeleteMod,
    ensures
        skeleton(r.path_text()) == template(r),
{
    match r {
        Route::DeleteMod { game_id, mod_id } => {
            lemma_free_18();
            lemma_free_32();
            lemma_free_0();
            lemma_skeleton_seg2("/games/"@, game_id@, "/mods/"@, mod_id@, ""@, Seq::<char>::empty());
            assert(seg2("/games/"@, game_id@ as nat, "/mods/"@, mod_id@ as nat, ""@) + Seq::<char>::empty() =~= seg2("/games/"@, game_id@ as nat, "/mods/"@, mod_id@ as nat, ""@));
            assert(tseg2("/games/"@, "/mods/"@, ""@) + Seq::<char>::empty() =~= tseg2("/games/"@, "/mods/"@, ""@));
        },
        _ => {},
    }
}

#[verifier::spinoff_prover]
#[verifier::rlimit(60)]
proof fn lemma_kind_delete_mod(r: Route)
    requires
        r is DeleteMod,
    ensures
        route_kind_of(r.method_of(), template(r)) == kind(r),
{
    reveal_strlit("/games/"); reveal_strlit("/mods/"); reveal_strlit("");
}

#[verifier::spinoff_prover]
#[verifier::rlimit(60)]
proof fn lemma_same_delete_mod(r1: Route, r2: Route)
    requires
        r1 is DeleteMod,
        r2 is DeleteMod,
        r1.path_text() == r2.path_text(),
    ensures
        r1 == r2,
{
    match (r1, r2) {
        (Route::DeleteMod { game_id: game_id_1, mod_id: mod_id_1 }, Route::DeleteMod { game_id: game_id_2, mod_id: mod_id_2 }) => {
            lemma_free_18();
            lemma_free_32();
            lemma_free_0();
            assert(seg2("/games/"@, game_id_1@ as nat, "/mods/"@, mod_id_1@ as nat, ""@) + Seq::<char>::empty() =~= seg2("/games/"@, game_id_1@ as nat, "/mods/"@, mod_id_1@ as nat, ""@));
            assert(seg2("/games/"@, game_id_2@ as nat, "/mods/"@, mod_id_2@ as nat, ""@) + Seq::<char>::empty() =~= seg2("/games/"@, game_id_2@ as nat, "/mods/"@, mod_id_2@ as nat, ""@));
            lemma_apart_concat(""@, Seq::<char>::empty());
            lemma_apart_concat(""@, Seq::<char>::empty());
            lemma_same_seg2("/games/"@, game_id_1@, game_id_2@, "/mods/"@, mod_id_1@, mod_id_2@, ""@, Seq::<char>::empty(), Seq::<char>::empty());
            lemma_id_eq(game_id_1, game_id_2);
            lemma_id_eq(mod_id_1, mod_id_2);
        },
        _ => {},
    }
}

#[verifier::spinoff_prover]
#[verifier::rlimit(60)]
proof fn lemma_skeleton_delete_mod_comment(r: Route)
    requires
        r is DeleteModComment,
    ensures
        skeleton(r.path_text()) == template(r),
{
    match r {
        Route::DeleteModComment { game_id, mod_id, comment_id } => {
            lemma_free_18();
            lemma_free_32();
            lemma_free_3();
            lemma_free_0();
            lemma_skeleton_seg3("/games/"@, game_id@, "/mods/"@, mod_id@, "/comments/"@, comment_id@, ""@, Seq::<char>::empty());
            assert(seg3("/games/"@, game_id@ as nat, "/mods/"@, mod_id@ as nat, "/comments/"@, comment_id@ as nat, ""@) + Seq::<char>::empty() =~= seg3("/games/"@, game_id@ as nat, "/mods/"@, mod_id@ as nat, "/comments/"@, comment_id@ as nat, ""@));
            assert(tseg3("/games/"@, "/mods/"@, "/comments/"@, ""@) + Seq::<char>::empty() =~= tseg3("/games/"@, "/mods/"@, "/comments/"@, ""@));
        },
        _ => {},
    }
}

#[verifier::spinoff_prover]
#[verifier::rlimit(60)]
proof fn lemma_kind_delete_mod_comment(r: Route)
    requires
        r is DeleteModComment,
    ensures
        route_kind_of(r.method_of(), template(r)) == kind(r),
{
    reveal_strlit("/games/"); reveal_strlit("/mods/"); reveal_strlit("/comments/"); reveal_strlit("");
}

#[verifier::spinoff_prover]
#[verifier::rlimit(60)]
proof fn lemma_same_delete_mod_comment(r1: Route, r2: Route)
    requires
        r1 is DeleteModComment,
        r2 is DeleteModComment,
        r1.path_text() == r2.path_text(),
    ensures
        r1 == r2,
{
    match (r1, r2) {
        (Route::DeleteModComment { game_id: game_id_1, mod_id: mod_id_1, comment_id: comment_id_1 }, Route::DeleteModComment { game_id: game_id_2, mod_id: mod_id_2, comment_id: comment_id_2 }) => {
            lemma_free_18();
            lemma_free_32();
            lemma_free_3();
            lemma_free_0();
            assert(seg3("/games/"@, game_id_1@ as nat, "/mods/"@, mod_id_1@ as nat, "/comments/"@, comment_id_1@ as nat, ""@) + Seq::<char>::empty() =~= seg3("/games/"@, game_id_1@ as nat, "/mods/"@, mod_id_1@ as nat, "/comments/"@, comment_id_1@ as nat, ""@));
            assert(seg3("/games/"@, game_id_2@ as nat, "/mods/"@, mod_id_2@ as nat, "/comments/"@, comment_id_2@ as nat, ""@) + Seq::<char>::empty() =~= seg3("/games/"@, game_id_2@ as nat, "/mods/"@, mod_id_2@ as nat, "/comments/"@, comment_id_2@ as nat, ""@));
            lemma_same_seg3("/games/"@, game_id_1@, game_id_2@, "/mods/"@, mod_id_1@, mod_id_2@, "/comments/"@, comment_id_1@, comment_id_2@, ""@, Seq::<char>::empty(), Seq::<char>::empty());
            lemma_id_eq(game_id_1, game_id_2);
            lemma_id_eq(mod_id_1, mod_id_2);
            lemma_id_eq(comment_id_1, comment_id_2);
        },
        _ => {},
    }
}

#[verifier::spinoff_prover]
#[verifier::rlimit(60)]
proof fn lemma_skeleton_delete_mod_dependencies(r: Route)
    requires
        r is DeleteModDependencies,
    ensures
        skeleton(r.path_text()) == template(r),
{
    match r {
        Route::DeleteModDependencies { game_id, mod_id } => {
            lemma_free_18();
            lemma_free_32();
            lemma_free_4();
            lemma_skeleton_seg2("/games/"@, game_id@, "/mods/"@, mod_id@, "/dependencies"@, Seq::<char>::empty());
            assert(seg2("/games/"@, game_id@ as nat, "/mods/"@, mod_id@ as nat, "/dependencies"@) + Seq::<char>::empty() =~= seg2("/games/"@, game_id@ as nat, "/mods/"@, mod_id@ as nat, "/dependencies"@));
            assert(tseg2("/games/"@, "/mods/"@, "/dependencies"@) + Seq::<char>::empty() =~= tseg2("/games/"@, "/mods/"@, "/dependencies"@));
        },
        _ => {},
    }
}

#[verifier::spinoff_prover]
#[verifier::rlimit(60)]
proof fn lemma_kind_delete_mod_dependencies(r: Route)
    requires
        r is DeleteModDependencies,
    ensures
        route_kind_of(r.method_of(), template(r)) == kind(r),
{
    reveal_strlit("/games/"); reveal_strlit("/mods/"); reveal_strlit("/dependencies");
}

#[verifier::spinoff_prover]
#[verifier::rlimit(60)]
proof fn lemma_same_delete_mod_dependencies(r1: Route, r2: Route)
    requires
        r1 is DeleteModDependencies,
        r2 is DeleteModDependencies,
        r1.path_text() == r2.path_text(),
    ensures
        r1 == r2,
{
    match (r1, r2) {
        (Route::DeleteModDependencies { game_id: game_id_1, mod_id: mod_id_1 }, Route::DeleteModDependencies { game_id: game_id_2, mod_id: mod_id_2 }) => {
            lemma_free_18();
            lemma_free_32();
            lemma_free_4();
            assert(seg2("/games/"@, game_id_1@ as nat, "/mods/"@, mod_id_1@ as nat, "/dependencies"@) + Seq::<char>::empty() =~= seg2("/games/"@, game_id_1@ as nat, "/mods/"@, mod_id_1@ as nat, "/dependencies"@));
            assert(seg2("/games/"@, game_id_2@ as nat, "/mods/"@, mod_id_2@ as nat, "/dependencies"@) + Seq::<char>::empty() =~= seg2("/games/"@, game_id_2@ as nat, "/mods/"@, mod_id_2@ as nat, "/dependencies"@));
            lemma_apart_concat("/dependencies"@, Seq::<char>::empty());
            lemma_apart_concat("/dependencies"@, Seq::<char>::empty());
            lemma_same_seg2("/games/"@, game_id_1@, game_id_2@, "/mods/"@, mod_id_1@, mod_id_2@, "/dependencies"@, Seq::<char>::empty(), Seq::<char>::empty());
            lemma_id_eq(game_id_1, game_id_2);
            lemma_id_eq(mod_id_1, mod_id_2);
        },
        _ => {},
    }
}

#[verifier::spinoff_prover]
#[verifier::rlimit(60)]
proof fn lemma_skeleton_delete_mod_media(r: Route)
    requires
        r is DeleteModMedia,
    ensures
        skeleton(r.path_text()) == template(r),
{
    match r {
        Route::DeleteModMedia { game_id, mod_id } => {
            lemma_free_18();
            lemma_free_32();
            lemma_free_28();
            lemma_skeleton_seg2("/games/"@, game_id@, "/mods/"@, mod_id@, "/media"@, Seq::<char>::empty());
            assert(seg2("/games/"@, game_id@ as nat, "/mods/"@, mod_id@ as nat, "/media"@) + Seq::<char>::empty() =~= seg2("/games/"@, game_id@ as nat, "/mods/"@, mod_id@ as nat, "/media"@));
            assert(tseg2("/games/"@, "/mods/"@, "/media"@) + Seq::<char>::empty() =~= tseg2("/games/"@, "/mods/"@, "/media"@));
        },
        _ => {},
    }
}

#[verifier::spinoff_prover]
#[verifier::rlimit(60)]
proof fn lemma_kind_delete_mod_media(r: Route)
    requires
        r is DeleteModMedia,
    ensures
        route_kind_of(r.method_of(), template(r)) == kind(r),
{
    reveal_strlit("/games/"); reveal_strlit("/mods/"); reveal_strlit("/media");
}

#[verifier::spinoff_prover]
#[verifier::rlimit(60)]
proof fn lemma_same_delete_mod_media(r1: Route, r2: Route)
    requires
        r1 is DeleteModMedia,
        r2 is DeleteModMedia,
        r1.path_text() == r2.path_text(),
    ensures
        r1 == r2,
{
    match (r1, r2) {
        (Route::DeleteModMedia { game_id: game_id_1, mod_id: mod_id_1 }, Route::DeleteModMedia { game_id: game_id_2, mod_id: mod_id_2 }) => {
            lemma_free_18();
            lemma_free_32();
            lemma_free_28();
            assert(seg2("/games/"@, game_id_1@ as nat, "/mods/"@, mod_id_1@ as nat, "/media"@) + Seq::<char>::empty() =~= seg2("/games/"@, game_id_1@ as nat, "/mods/"@, mod_id_1@ as nat, "/media"@));
            assert(seg2("/games/"@, game_id_2@ as nat, "/mods/"@, mod_id_2@ as nat, "/media"@) + Seq::<char>::empty() =~= seg2("/games/"@, game_id_2@ as nat, "/mods/"@, mod_id_2@ as nat, "/media"@));
            lemma_apart_concat("/media"@, Seq::<char>::empty());
            lemma_apart_concat("/media"@, Seq::<char>::empty());
            lemma_same_seg2("/games/"@, game_id_1@, game_id_2@, "/mods/"@, mod_id_1@, mod_id_2@, "/media"@, Seq::<char>::empty(), Seq::<char>::empty());
            lemma_id_eq(game_id_1, game_id_2);
            lemma_id_eq(mod_id_1, mod_id_2);
        },
        _ => {},
    }
}

#[verifier::spinoff_prover]
#[verifier::rlimit(60)]
proof fn lemma_skeleton_delete_mod_metadata(r: Route)
    requires
        r is DeleteModMetadata,
    ensures
        skeleton(r.path_text()) == template(r),
{
    match r {
        Route::DeleteModMetadata { game_id, mod_id } => {
            lemma_free_18();
            lemma_free_32();
            lemma_free_30();
            lemma_skeleton_seg2("/games/"@, game_id@, "/mods/"@, mod_id@, "/metadatakvp"@, Seq::<char>::empty());
            assert(seg2("/games/"@, game_id@ as nat, "/mods/"@, mod_id@ as nat, "/metadatakvp"@) + Seq::<char>::empty() =~= seg2("/games/"@, game_id@ as nat, "/mods/"@, mod_id@ as nat, "/metadatakvp"@));
            assert(tseg2("/games/"@, "/mods/"@, "/metadatakvp"@) + Seq::<char>::empty() =~= tseg2("/games/"@, "/mods/"@, "/metadatakvp"@));
        },
        _ => {},
    }
}

#[verifier::spinoff_prover]
#[verifier::rlimit(60)]
proof fn lemma_kind_delete_mod_metadata(r: Route)
    requires
        r is DeleteModMetadata,
    ensures
        route_kind_of(r.method_of(), template(r)) == kind(r),
{
    reveal_strlit("/games/"); reveal_strlit("/mods/"); reveal_strlit("/metadatakvp");
}

#[verifier::spinoff_prover]
#[verifier::rlimit(60)]
proof fn lemma_same_delete_mod_metadata(r1: Route, r2: Route)
    requires
        r1 is DeleteModMetadata,
        r2 is DeleteModMetadata,
        r1.path_text() == r2.path_text(),
    ensures
        r1 == r2,
{
    match (r1, r2) {
        (Route::DeleteModMetadata { game_id: game_id_1, mod_id: mod_id_1 }, Route::DeleteModMetadata { game_id: game_id_2, mod_id: mod_id_2 }) => {
            lemma_free_18();
            lemma_free_32();
            lemma_free_30();
            assert(seg2("/games/"@, game_id_1@ as nat, "/mods/"@, mod_id_1@ as nat, "/metadatakvp"@) + Seq::<char>::empty() =~= seg2("/games/"@, game_id_1@ as nat, "/mods/"@, mod_id_1@ as nat, "/metadatakvp"@));
            assert(seg2("/games/"@, game_id_2@ as nat, "/mods/"@, mod_id_2@ as nat, "/metadatakvp"@) + Seq::<char>::empty() =~= seg2("/games/"@, game_id_2@ as nat, "/mods/"@, mod_id_2@ as nat, "/metadatakvp"@));
            lemma_apart_concat("/metadatakvp"@, Seq::<char>::empty());
            lemma_apart_concat("/metadatakvp"@, Seq::<char>::empty());
            lemma_same_seg2("/games/"@, game_id_1@, game_id_2@, "/mods/"@, mod_id_1@, mod_id_2@, "/metadatakvp"@, Seq::<char>::empty(), Seq::<char>::empty());
            lemma_id_eq(game_id_1, game_id_2);
            lemma_id_eq(mod_id_1, mod_id_2);
        },
        _ => {},
    }
}

#[verifier::spinoff_prover]
#[verifier::rlimit(60)]
proof fn lemma_skeleton_delete_mod_tags(r: Route)
    requires
        r is DeleteModTags,
    ensures
        skeleton(r.path_text()) == template(r),
{
    match r {
        Route::DeleteModTags { game_id, mod_id } => {
            lemma_free_18();
            lemma_free_32();
            lemma_free_44();
            lemma_skeleton_seg2("/games/"@, game_id@, "/mods/"@, mod_id@, "/tags"@, Seq::<char>::empty());
            assert(seg2("/games/"@, game_id@ as nat, "/mods/"@, mod_id@ as nat, "/tags"@) + Seq::<char>::empty() =~= seg2("/games/"@, game_id@ as nat, "/mods/"@, mod_id@ as nat, "/tags"@));
            assert(tseg2("/games/"@, "/mods/"@, "/tags"@) + Seq::<char>::empty() =~= tseg2("/games/"@, "/mods/"@, "/tags"@));
        },
        _ => {},
    }
}

#[verifier::spinoff_prover]
#[verifier::rlimit(60)]
proof fn lemma_kind_delete_mod_tags(r: Route)
    requires
        r is DeleteModTags,
    ensures
        route_kind_of(r.method_of(), template(r)) == kind(r),
{
    reveal_strlit("/games/"); reveal_strlit("/mods/"); reveal_strlit("/tags");
}

#[verifier::spinoff_prover]
#[verifier::rlimit(60)]
proof fn lemma_same_delete_mod_tags(r1: Route, r2: Route)
    requires
        r1 is DeleteModTags,
        r2 is DeleteModTags,
        r1.path_text() == r2.path_text(),
    ensures
        r1 == r2,
{
    match (r1, r2) {
        (Route::DeleteModTags { game_id: game_id_1, mod_id: mod_id_1 }, Route::DeleteModTags { game_id: game_id_2, mod_id: mod_id_2 }) => {
            lemma_free_18();
            lemma_free_32();
            lemma_free_44();
            assert(seg2("/games/"@, game_id_1@ as nat, "/mods/"@, mod_id_1@ as nat, "/tags"@) + Seq::<char>::empty() =~= seg2("/games/"@, game_id_1@ as nat, "/mods/"@, mod_id_1@ as nat, "/tags"@));
            assert(seg2("/games/"@, game_id_2@ as nat, "/mods/"@, mod_id_2@ as nat, "/tags"@) + Seq::<char>::empty() =~= seg2("/games/"@, game_id_2@ as nat, "/mods/"@, mod_id_2@ as nat, "/tags"@));
            lemma_apart_concat("/tags"@, Seq::<char>::empty());
            lemma_apart_concat("/tags"@, Seq::<char>::empty());
            lemma_same_seg2("/games/"@, game_id_1@, game_id_2@, "/mods/"@, mod_id_1@, mod_id_2@, "/tags"@, Seq::<char>::empty(), Seq::<char>::empty());
            lemma_id_eq(game_id_1, game_id_2);
            lemma_id_eq(mod_id_1, mod_id_2);
        },
        _ => {},
    }
}

#[verifier::spinoff_prover]
#[verifier::rlimit(60)]
proof fn lemma_skeleton_edit_file(r: Route)
    requires
        r is EditFile,
    ensures
        skeleton(r.path_text()) == template(r),
{
    match r {
        Route::EditFile { game_id, mod_id, file_id } => {
            lemma_free_18();
            lemma_free_32();
            lemma_free_16();
            lemma_free_0();
            lemma_skeleton_seg3("/games/"@, game_id@, "/mods/"@, mod_id@, "/files/"@, file_id@, ""@, Seq::<char>::empty());
            assert(seg3("/games/"@, game_id@ as nat, "/mods/"@, mod_id@ as nat, "/files/"@, file_id@ as nat, ""@) + Seq::<char>::empty() =~= seg3("/games/"@, game_id@ as nat, "/mods/"@, mod_id@ as nat, "/files/"@, file_id@ as nat, ""@));
            assert(tseg3("/games/"@, "/mods/"@, "/files/"@, ""@) + Seq::<char>::empty() =~= tseg3("/games/"@, "/mods/"@, "/files/"@, ""@));
        },
        _ => {},
    }
}

#[verifier::spinoff_prover]
#[verifier::rlimit(60)]
proof fn lemma_kind_edit_file(r: Route)
    requires
        r is EditFile,
    ensures
        route_kind_of(r.method_of(), template(r)) == kind(r),
{
    reveal_strlit("/games/"); reveal_strlit("/mods/"); reveal_strlit("/files/"); reveal_strlit("");
}

#[verifier::spinoff_prover]
#[verifier::rlimit(60)]
proof fn lemma_same_edit_file(r1: Route, r2: Route)
    requires
        r1 is EditFile,
        r2 is EditFile,
        r1.path_text() == r2.path_text(),
    ensures
        r1 == r2,
{
    match (r1, r2) {
        (Route::EditFile { game_id: game_id_1, mod_id: mod_id_1, file_id: file_id_1 }, Route::EditFile { game_id: game_id_2, mod_id: mod_id_2, file_id: file_id_2 }) => {
            lemma_free_18();
            lemma_free_32();
            lemma_free_16();
            lemma_free_0();
            assert(seg3("/games/"@, game_id_1@ as nat, "/mods/"@, mod_id_1@ as nat, "/files/"@, file_id_1@ as nat, ""@) + Seq::<char>::empty() =~= seg3("/games/"@, game_id_1@ as nat, "/mods/"@, mod_id_1@ as nat, "/files/"@, file_id_1@ as nat, ""@));
            assert(seg3("/games/"@, game_id_2@ as nat, "/mods/"@, mod_id_2@ as nat, "/files/"@, file_id_2@ as nat, ""@) + Seq::<char>::empty() =~= seg3("/games/"@, game_id_2@ as nat, "/mods/"@, mod_id_2@ as nat, "/files/"@, file_id_2@ as nat, ""@));
            lemma_same_seg3("/games/"@, game_id_1@, game_id_2@, "/mods/"@, mod_id_1@, mod_id_2@, "/files/"@, file_id_1@, file_id_2@, ""@, Seq::<char>::empty(), Seq::<char>::empty());
            lemma_id_eq(game_id_1, game_id_2);
            lemma_id_eq(mod_id_1, mod_id_2);
            lemma_id_eq(file_id_1, file_id_2);
        },
        _ => {},
    }
}

#[verifier::spinoff_prover]
#[verifier::rlimit(60)]
proof fn lemma_skeleton_edit_mod(r: Route)
    requires
        r is EditMod,
    ensures
        skeleton(r.path_text()) == template(r),
{
    match r {
        Route::EditMod { game_id, mod_id } => {
            lemma_free_18();
            lemma_free_32();
            lemma_free_0();
            lemma_skeleton_seg2("/games/"@, game_id@, "/mods/"@, mod_id@, ""@, Seq::<char>::empty());
            assert(seg2("/games/"@, game_id@ as nat, "/mods/"@, mod_id@ as nat, ""@) + Seq::<char>::empty() =~= seg2("/games/"@, game_id@ as nat, "/mods/"@, mod_id@ as nat, ""@));
            assert(tseg2("/games/"@, "/mods/"@, ""@) + Seq::<char>::empty() =~= tseg2("/games/"@, "/mods/"@, ""@));
        },
        _ => {},
    }
}

#[verifier::spinoff_prover]
#[verifier::rlimit(60)]
proof fn lemma_kind_edit_mod(r: Route)
    requires
        r is EditMod,
    ensures
        route_kind_of(r.method_of(), template(r)) == kind(r),
{
    reveal_strlit("/games/"); reveal_strlit("/mods/"); reveal_strlit("");
}

#[verifier::spinoff_prover]
#[verifier::rlimit(60)]
proof fn lemma_same_edit_mod(r1: Route, r2: Route)
    requires
        r1 is EditMod,
        r2 is EditMod,
        r1.path_text() == r2.path_text(),
    ensures
        r1 == r2,
{
    match (r1, r2) {
        (Route::EditMod { game_id: game_id_1, mod_id: mod_id_1 }, Route::EditMod { game_id: game_id_2, mod_id: mod_id_2 }) => {
            lemma_free_18();
            lemma_free_32();
            lemma_free_0();
            assert(seg2("/games/"@, game_id_1@ as nat, "/mods/"@, mod_id_1@ as nat, ""@) + Seq::<char>::empty() =~= seg2("/games/"@, game_id_1@ as nat, "/mods/"@, mod_id_1@ as nat, ""@));
            assert(seg2("/games/"@, game_id_2@ as nat, "/mods/"@, mod_id_2@ as nat, ""@) + Seq::<char>::empty() =~= seg2("/games/"@, game_id_2@ as nat, "/mods/"@, mod_id_2@ as nat, ""@));
            lemma_apart_concat(""@, Seq::<char>::empty());
            lemma_apart_concat(""@, Seq::<char>::empty());
            lemma_same_seg2("/games/"@, game_id_1@, game_id_2@, "/mods/"@, mod_id_1@, mod_id_2@, ""@, Seq::<char>::empty(), Seq::<char>::empty());
            lemma_id_eq(game_id_1, game_id_2);
            lemma_id_eq(mod_id_1, mod_id_2);
        },
        _ => {},
    }
}

#[verifier::spinoff_prover]
#[verifier::rlimit(60)]
proof fn lemma_skeleton_edit_mod_comment(r: Route)
    requires
        r is EditModComment,
    ensures
        skeleton(r.path_text()) == template(r),
{
    match r {
        Route::EditModComment { game_id, mod_id, comment_id } => {
            lemma_free_18();
            lemma_free_32();
            lemma_free_3();
            lemma_free_0();
            lemma_skeleton_seg3("/games/"@, game_id@, "/mods/"@, mod_id@, "/comments/"@, comment_id@, ""@, Seq::<char>::empty());
            assert(seg3("/games/"@, game_id@ as nat, "/mods/"@, mod_id@ as nat, "/comments/"@, comment_id@ as nat, ""@) + Seq::<char>::empty() =~= seg3("/games/"@, game_id@ as nat, "/mods/"@, mod_id@ as nat, "/comments/"@, comment_id@ as nat, ""@));
            assert(tseg3("/games/"@, "/mods/"@, "/comments/"@, ""@) + Seq::<char>::empty() =~= tseg3("/games/"@, "/mods/"@, "/comments/"@, ""@));
        },
        _ => {},
    }
}

#[verifier::spinoff_prover]
#[verifier::rlimit(60)]
proof fn lemma_kind_edit_mod_comment(r: Route)
    requires
        r is EditModComment,
    ensures
        route_kind_of(r.method_of(), template(r)) == kind(r),
{
    reveal_strlit("/games/"); reveal_strlit("/mods/"); reveal_strlit("/comments/"); reveal_strlit("");
}

#[verifier::spinoff_prover]
#[verifier::rlimit(60)]
proof fn lemma_same_edit_mod_comment(r1: Route, r2: Route)
    requires
        r1 is EditModComment,
        r2 is EditModComment,
        r1.path_text() == r2.path_text(),
    ensures
        r1 == r2,
{
    match (r1, r2) {
        (Route::EditModComment { game_id: game_id_1, mod_id: mod_id_1, comment_id: comment_id_1 }, Route::EditModComment { game_id: game_id_2, mod_id: mod_id_2, comment_id: comment_id_2 }) => {
            lemma_free_18();
            lemma_free_32();
            lemma_free_3();
            lemma_free_0();
            assert(seg3("/games/"@, game_id_1@ as nat, "/mods/"@, mod_id_1@ as nat, "/comments/"@, comment_id_1@ as nat, ""@) + Seq::<char>::empty() =~= seg3("/games/"@, game_id_1@ as nat, "/mods/"@, mod_id_1@ as nat, "/comments/"@, comment_id_1@ as nat, ""@));
            assert(seg3("/games/"@, game_id_2@ as nat, "/mods/"@, mod_id_2@ as nat, "/comments/"@, comment_id_2@ as nat, ""@) + Seq::<char>::empty() =~= seg3("/games/"@, game_id_2@ as nat, "/mods/"@, mod_id_2@ as nat, "/comments/"@, comment_id_2@ as nat, ""@));
            lemma_same_seg3("/games/"@, game_id_1@, game_id_2@, "/mods/"@, mod_id_1@, mod_id_2@, "/comments/"@, comment_id_1@, comment_id_2@, ""@, Seq::<char>::empty(), Seq::<char>::empty());
            lemma_id_eq(game_id_1, game_id_2);
            lemma_id_eq(mod_id_1, mod_id_2);
            lemma_id_eq(comment_id_1, comment_id_2);
        },
        _ => {},
    }
}

#[verifier::spinoff_prover]
#[verifier::rlimit(60)]
proof fn lemma_skeleton_external_auth_discord(r: Route)
    requires
        r is ExternalAuthDiscord,
    ensures
        skeleton(r.path_text()) == template(r),
{
    match r {
        Route::ExternalAuthDiscord => {
            lemma_free_6();
            lemma_skeleton_seg0("/external/discordauth"@, Seq::<char>::empty());
            assert("/external/discordauth"@ + Seq::<char>::empty() =~= "/external/discordauth"@);
            assert("/external/discordauth"@ + Seq::<char>::empty() =~= "/external/discordauth"@);
        },
        _ => {},
    }
}

#[verifier::spinoff_prover]
#[verifier::rlimit(60)]
proof fn lemma_kind_external_auth_discord(r: Route)
    requires
        r is ExternalAuthDiscord,
    ensures
        route_kind_of(r.method_of(), template(r)) == kind(r),
{
    reveal_strlit("/external/discordauth");
}

#[verifier::spinoff_prover]
#[verifier::rlimit(60)]
proof fn lemma_same_external_auth_discord(r1: Route, r2: Route)
    requires
        r1 is ExternalAuthDiscord,
        r2 is ExternalAuthDiscord,
        r1.path_text() == r2.path_text(),
    ensures
        r1 == r2,
{
    assert(r1 is ExternalAuthDiscord);
}

#[verifier::spinoff_prover]
#[verifier::rlimit(60)]
proof fn lemma_skeleton_external_auth_epic(r: Route)
    requires
        r is ExternalAuthEpic,
    ensures
        skeleton(r.path_text()) == template(r),
{
    match r {
        Route::ExternalAuthEpic => {
            lemma_free_7();
            lemma_skeleton_seg0("/external/epicgamesauth"@, Seq::<char>::empty());
            assert("/external/epicgamesauth"@ + Seq::<char>::empty() =~= "/external/epicgamesauth"@);
            assert("/external/epicgamesauth"@ + Seq::<char>::empty() =~= "/external/epicgamesauth"@);
        },
        _ => {},
    }
}

#[verifier::spinoff_prover]
#[verifier::rlimit(60)]
proof fn lemma_kind_external_auth_epic(r: Route)
    requires
        r is ExternalAuthEpic,
    ensures
        route_kind_of(r.method_of(), template(r)) == kind(r),
{
    reveal_strlit("/external/epicgamesauth");
}

#[verifier::spinoff_prover]
#[verifier::rlimit(60)]
proof fn lemma_same_external_auth_epic(r1: Route, r2: Route)
    requires
        r1 is ExternalAuthEpic,
        r2 is ExternalAuthEpic,
        r1.path_text() == r2.path_text(),
    ensures
        r1 == r2,
{
    assert(r1 is ExternalAuthEpic);
}

#[verifier::spinoff_prover]
#[verifier::rlimit(60)]
proof fn lemma_skeleton_external_auth_google(r: Route)
    requires
        r is ExternalAuthGoogle,
    ensures
        skeleton(r.path_text()) == template(r),
{
    match r {
        Route::ExternalAuthGoogle => {
            lemma_free_8();
            lemma_skeleton_seg0("/external/googleauth"@, Seq::<char>::empty());
            assert("/external/googleauth"@ + Seq::<char>::empty() =~= "/external/googleauth"@);
            assert("/external/googleauth"@ + Seq::<char>::empty() =~= "/external/googleauth"@);
        },
        _ => {},
    }
}

#[verifier::spinoff_prover]
#[verifier::rlimit(60)]
proof fn lemma_kind_external_auth_google(r: Route)
    requires
        r is ExternalAuthGoogle,
    ensures
        route_kind_of(r.method_of(), template(r)) == kind(r),
{
    reveal_strlit("/external/googleauth");
}

#[verifier::spinoff_prover]
#[verifier::rlimit(60)]
proof fn lemma_same_external_auth_google(r1: Route, r2: Route)
    requires
        r1 is ExternalAuthGoogle,
        r2 is ExternalAuthGoogle,
        r1.path_text() == r2.path_text(),
    ensures
        r1 == r2,
{
    assert(r1 is ExternalAuthGoogle);
}

#[verifier::spinoff_prover]
#[verifier::rlimit(60)]
proof fn lemma_skeleton_external_auth_meta(r: Route)
    requires
        r is ExternalAuthMeta,
    ensures
        skeleton(r.path_text()) == template(r),
{
    match r {
        Route::ExternalAuthMeta => {
            lemma_free_9();
            lemma_skeleton_seg0("/external/oculusauth"@, Seq::<char>::empty());
            assert("/external/oculusauth"@ + Seq::<char>::empty() =~= "/external/oculusauth"@);
            assert("/external/oculusauth"@ + Seq::<char>::empty() =~= "/external/oculusauth"@);
        },
        _ => {},
    }
}

#[verifier::spinoff_prover]
#[verifier::rlimit(60)]
proof fn lemma_kind_external_auth_meta(r: Route)
    requires
        r is ExternalAuthMeta,
    ensures
        route_kind_of(r.method_of(), template(r)) == kind(r),
{
    reveal_strlit("/external/oculusauth");
}

#[verifier::spinoff_prover]
#[verifier::rlimit(60)]
proof fn lemma_same_external_auth_meta(r1: Route, r2: Route)
    requires
        r1 is ExternalAuthMeta,
        r2 is ExternalAuthMeta,
        r1.path_text() == r2.path_text(),
    ensures
        r1 == r2,
{
    assert(r1 is ExternalAuthMeta);
}

#[verifier::spinoff_prover]
#[verifier::rlimit(60)]
proof fn lemma_skeleton_external_auth_open_i_d(r: Route)
    requires
        r is ExternalAuthOpenID,
    ensures
        skeleton(r.path_text()) == template(r),
{
    match r {
        Route::ExternalAuthOpenID => {
            lemma_free_10();
            lemma_skeleton_seg0("/external/openidauth"@, Seq::<char>::empty());
            assert("/external/openidauth"@ + Seq::<char>::empty() =~= "/external/openidauth"@);
            assert("/external/openidauth"@ + Seq::<char>::empty() =~= "/external/openidauth"@);
        },
        _ => {},
    }
}

#[verifier::spinoff_prover]
#[verifier::rlimit(60)]
proof fn lemma_kind_external_auth_open_i_d(r: Route)
    requires
        r is ExternalAuthOpenID,
    ensures
        route_kind_of(r.method_of(), template(r)) == kind(r),
{
    reveal_strlit("/external/openidauth");
}

#[verifier::spinoff_prover]
#[verifier::rlimit(60)]
proof fn lemma_same_external_auth_open_i_d(r1: Route, r2: Route)
    requires
        r1 is ExternalAuthOpenID,
        r2 is ExternalAuthOpenID,
        r1.path_text() == r2.path_text(),
    ensures
        r1 == r2,
{
    assert(r1 is ExternalAuthOpenID);
}

#[verifier::spinoff_prover]
#[verifier::rlimit(60)]
proof fn lemma_skeleton_external_auth_p_s_n(r: Route)
    requires
        r is ExternalAuthPSN,
    ensures
        skeleton(r.path_text()) == template(r),
{
    match r {
        Route::ExternalAuthPSN => {
            lemma_free_11();
            lemma_skeleton_seg0("/external/psnauth"@, Seq::<char>::empty());
            assert("/external/psnauth"@ + Seq::<char>::empty() =~= "/external/psnauth"@);
            assert("/external/psnauth"@ + Seq::<char>::empty() =~= "/external/psnauth"@);
        },
        _ => {},
    }
}

#[verifier::spinoff_prover]
#[verifier::rlimit(60)]
proof fn lemma_kind_external_auth_p_s_n(r: Route)
    requires
        r is ExternalAuthPSN,
    ensures
        route_kind_of(r.method_of(), template(r)) == kind(r),
{
    reveal_strlit("/external/psnauth");
}

#[verifier::spinoff_prover]
#[verifier::rlimit(60)]
proof fn lemma_same_external_auth_p_s_n(r1: Route, r2: Route)
    requires
        r1 is ExternalAuthPSN,
        r2 is ExternalAuthPSN,
        r1.path_text() == r2.path_text(),
    ensures
        r1 == r2,
{
    assert(r1 is ExternalAuthPSN);
}

#[verifier::spinoff_prover]
#[verifier::rlimit(60)]
proof fn lemma_skeleton_external_auth_steam(r: Route)
    requires
        r is ExternalAuthSteam,
    ensures
        skeleton(r.path_text()) == template(r),
{
    match r {
        Route::ExternalAuthSteam => {
            lemma_free_12();
            lemma_skeleton_seg0("/external/steamauth"@, Seq::<char>::empty());
            assert("/external/steamauth"@ + Seq::<char>::empty() =~= "/external/steamauth"@);
            assert("/external/steamauth"@ + Seq::<char>::empty() =~= "/external/steamauth"@);
        },
        _ => {},
    }
}

#[verifier::spinoff_prover]
#[verifier::rlimit(60)]
proof fn lemma_kind_external_auth_steam(r: Route)
    requires
        r is ExternalAuthSteam,
    ensures
        route_kind_of(r.method_of(), template(r)) == kind(r),
{
    reveal_strlit("/external/steamauth");
}

#[verifier::spinoff_prover]
#[verifier::rlimit(60)]
proof fn lemma_same_external_auth_steam(r1: Route, r2: Route)
    requires
        r1 is ExternalAuthSteam,
        r2 is ExternalAuthSteam,
        r1.path_text() == r2.path_text(),
    ensures
        r1 == r2,
{
    assert(r1 is ExternalAuthSteam);
}

#[verifier::spinoff_prover]
#[verifier::rlimit(60)]
proof fn lemma_skeleton_external_auth_switch(r: Route)
    requires
        r is ExternalAuthSwitch,
    ensures
        skeleton(r.path_text()) == template(r),
{
    match r {
        Route::ExternalAuthSwitch => {
            lemma_free_13();
            lemma_skeleton_seg0("/external/switchauth"@, Seq::<char>::empty());
            assert("/external/switchauth"@ + Seq::<char>::empty() =~= "/external/switchauth"@);
            assert("/external/switchauth"@ + Seq::<char>::empty() =~= "/external/switchauth"@);
        },
        _ => {},
    }
}

#[verifier::spinoff_prover]
#[verifier::rlimit(60)]
proof fn lemma_kind_external_auth_switch(r: Route)
    requires
        r is ExternalAuthSwitch,
    ensures
        route_kind_of(r.method_of(), template(r)) == kind(r),
{
    reveal_strlit("/external/switchauth");
}

#[verifier::spinoff_prover]
#[verifier::rlimit(60)]
proof fn lemma_same_external_auth_switch(r1: Route, r2: Route)
    requires
        r1 is ExternalAuthSwitch,
        r2 is ExternalAuthSwitch,
        r1.path_text() == r2.path_text(),
    ensures
        r1 == r2,
{
    assert(r1 is ExternalAuthSwitch);
}

#[verifier::spinoff_prover]
#[verifier::rlimit(60)]
proof fn lemma_skeleton_external_auth_xbox(r: Route)
    requires
        r is ExternalAuthXbox,
    ensures
        skeleton(r.path_text()) == template(r),
{
    match r {
        Route::ExternalAuthXbox => {
            lemma_free_14();
            lemma_skeleton_seg0("/external/xboxauth"@, Seq::<char>::empty());
            assert("/external/xboxauth"@ + Seq::<char>::empty() =~= "/external/xboxauth"@);
            assert("/external/xboxauth"@ + Seq::<char>::empty() =~= "/external/xboxauth"@);
        },
        _ => {},
    }
}

#[verifier::spinoff_prover]
#[verifier::rlimit(60)]
proof fn lemma_kind_external_auth_xbox(r: Route)
    requires
        r is ExternalAuthXbox,
    ensures
        route_kind_of(r.method_of(), template(r)) == kind(r),
{
    reveal_strlit("/external/xboxauth");
}

#[verifier::spinoff_prover]
#[verifier::rlimit(60)]
proof fn lemma_same_external_auth_xbox(r1: Route, r2: Route)
    requires
        r1 is ExternalAuthXbox,
        r2 is ExternalAuthXbox,
        r1.path_text() == r2.path_text(),
    ensures
        r1 == r2,
{
    assert(r1 is ExternalAuthXbox);
}

#[verifier::spinoff_prover]
#[verifier::rlimit(60)]
proof fn lemma_skeleton_get_file(r: Route)
    requires
        r is GetFile,
    ensures
        skeleton(r.path_text()) == template(r),
{
    match r {
        Route::GetFile { game_id, mod_id, file_id } => {
            lemma_free_18();
            lemma_free_32();
            lemma_free_16();
            lemma_free_0();
            lemma_skeleton_seg3("/games/"@, game_id@, "/mods/"@, mod_id@, "/files/"@, file_id@, ""@, Seq::<char>::empty());
            assert(seg3("/games/"@, game_id@ as nat, "/mods/"@, mod_id@ as nat, "/files/"@, file_id@ as nat, ""@) + Seq::<char>::empty() =~= seg3("/games/"@, game_id@ as nat, "/mods/"@, mod_id@ as nat, "/files/"@, file_id@ as nat, ""@));
            assert(tseg3("/games/"@, "/mods/"@, "/files/"@, ""@) + Seq::<char>::empty() =~= tseg3("/games/"@, "/mods/"@, "/files/"@, ""@));
        },
        _ => {},
    }
}

#[verifier::spinoff_prover]
#[verifier::rlimit(60)]
proof fn lemma_kind_get_file(r: Route)
    requires
        r is GetFile,
    ensures
        route_kind_of(r.method_of(), template(r)) == kind(r),
{
    reveal_strlit("/games/"); reveal_strlit("/mods/"); reveal_strlit("/files/"); reveal_strlit("");
}

#[verifier::spinoff_prover]
#[verifier::rlimit(60)]
proof fn lemma_same_get_file(r1: Route, r2: Route)
    requires
        r1 is GetFile,
        r2 is GetFile,
        r1.path_text() == r2.path_text(),
    ensures
        r1 == r2,
{
    match (r1, r2) {
        (Route::GetFile { game_id: game_id_1, mod_id: mod_id_1, file_id: file_id_1 }, Route::GetFile { game_id: game_id_2, mod_id: mod_id_2, file_id: file_id_2 }) => {
            lemma_free_18();
            lemma_free_32();
            lemma_free_16();
            lemma_free_0();
            assert(seg3("/games/"@, game_id_1@ as nat, "/mods/"@, mod_id_1@ as nat, "/files/"@, file_id_1@ as nat, ""@) + Seq::<char>::empty() =~= seg3("/games/"@, game_id_1@ as nat, "/mods/"@, mod_id_1@ as nat, "/files/"@, file_id_1@ as nat, ""@));
            assert(seg3("/games/"@, game_id_2@ as nat, "/mods/"@, mod_id_2@ as nat, "/files/"@, file_id_2@ as nat, ""@) + Seq::<char>::empty() =~= seg3("/games/"@, game_id_2@ as nat, "/mods/"@, mod_id_2@ as nat, "/files/"@, file_id_2@ as nat, ""@));
            lemma_same_seg3("/games/"@, game_id_1@, game_id_2@, "/mods/"@, mod_id_1@, mod_id_2@, "/files/"@, file_id_1@, file_id_2@, ""@, Seq::<char>::empty(), Seq::<char>::empty());
            lemma_id_eq(game_id_1, game_id_2);
            lemma_id_eq(mod_id_1, mod_id_2);
            lemma_id_eq(file_id_1, file_id_2);
        },
        _ => {},
    }
}

#[verifier::spinoff_prover]
#[verifier::rlimit(60)]
proof fn lemma_skeleton_get_files(r: Route)
    requires
        r is GetFiles,
    ensures
        skeleton(r.path_text()) == template(r),
{
    match r {
        Route::GetFiles { game_id, mod_id } => {
            lemma_free_18();
            lemma_free_32();
            lemma_free_15();
            lemma_skeleton_seg2("/games/"@, game_id@, "/mods/"@, mod_id@, "/files"@, Seq::<char>::empty());
            assert(seg2("/games/"@, game_id@ as nat, "/mods/"@, mod_id@ as nat, "/files"@) + Seq::<char>::empty() =~= seg2("/games/"@, game_id@ as nat, "/mods/"@, mod_id@ as nat, "/files"@));
            assert(tseg2("/games/"@, "/mods/"@, "/files"@) + Seq::<char>::empty() =~= tseg2("/games/"@, "/mods/"@, "/files"@));
        },
        _ => {},
    }
}

#[verifier::spinoff_prover]
#[verifier::rlimit(60)]
proof fn lemma_kind_get_files(r: Route)
    requires
        r is GetFiles,
    ensures
        route_kind_of(r.method_of(), template(r)) == kind(r),
{
    reveal_strlit("/games/"); reveal_strlit("/mods/"); reveal_strlit("/files");
}

#[verifier::spinoff_prover]
#[verifier::rlimit(60)]
proof fn lemma_same_get_files(r1: Route, r2: Route)
    requires
        r1 is GetFiles,
        r2 is GetFiles,
        r1.path_text() == r2.path_text(),
    ensures
        r1 == r2,
{
    match (r1, r2) {
        (Route::GetFiles { game_id: game_id_1, mod_id: mod_id_1 }, Route::GetFiles { game_id: game_id_2, mod_id: mod_id_2 }) => {
            lemma_free_18();
            lemma_free_32();
            lemma_free_15();
            assert(seg2("/games/"@, game_id_1@ as nat, "/mods/"@, mod_id_1@ as nat, "/files"@) + Seq::<char>::empty() =~= seg2("/games/"@, game_id_1@ as nat, "/mods/"@, mod_id_1@ as nat, "/files"@));
            assert(seg2("/games/"@, game_id_2@ as nat, "/mods/"@, mod_id_2@ as nat, "/files"@) + Seq::<char>::empty() =~= seg2("/games/"@, game_id_2@ as nat, "/mods/"@, mod_id_2@ as nat, "/files"@));
            lemma_apart_concat("/files"@, Seq::<char>::empty());
            lemma_apart_concat("/files"@, Seq::<char>::empty());
            lemma_same_seg2("/games/"@, game_id_1@, game_id_2@, "/mods/"@, mod_id_1@, mod_id_2@, "/files"@, Seq::<char>::empty(), Seq::<char>::empty());
            lemma_id_eq(game_id_1, game_id_2);
            lemma_id_eq(mod_id_1, mod_id_2);
        },
        _ => {},
    }
}

#[verifier::spinoff_prover]
#[verifier::rlimit(60)]
proof fn lemma_skeleton_get_game(r: Route)
    requires
        r is GetGame,
    ensures
        skeleton(r.path_text()) == template(r),
{
    match r {
        Route::GetGame { id, show_hidden_tags } => {
            lemma_free_18();
            lemma_free_0();
            lemma_free_49();
            lemma_query_free("?show_hidden_tags="@, show_hidden_tags);
            lemma_skeleton_seg1("/games/"@, id@, ""@, query_flag("?show_hidden_tags="@, show_hidden_tags));
        },
        _ => {},
    }
}

#[verifier::spinoff_prover]
#[verifier::rlimit(60)]
proof fn lemma_kind_get_game(r: Route)
    requires
        r is GetGame,
    ensures
        route_kind_of(r.method_of(), template(r)) == kind(r),
{
    match r {
        Route::GetGame { show_hidden_tags, .. } => {
            reveal_strlit("/games/"); reveal_strlit(""); reveal_strlit("?show_hidden_tags=");
            match show_hidden_tags {
                Some(b) => {
                    assert(bool_text(true) == seq!['t', 'r', 'u', 'e']);
                    assert(bool_text(false) == seq!['f', 'a', 'l', 's', 'e']);
                },
                None => {},
            }
        },
        _ => {},
    }
}

#[verifier::spinoff_prover]
#[verifier::rlimit(60)]
proof fn lemma_same_get_game(r1: Route, r2: Route)
    requires
        r1 is GetGame,
        r2 is GetGame,
        r1.path_text() == r2.path_text(),
    ensures
        r1 == r2,
{
    match (r1, r2) {
        (Route::GetGame { id: id_1, show_hidden_tags: show_hidden_tags_1 }, Route::GetGame { id: id_2, show_hidden_tags: show_hidden_tags_2 }) => {
            lemma_free_18();
            lemma_free_0();
            lemma_free_49();
            lemma_query_free("?show_hidden_tags="@, show_hidden_tags_1);
            lemma_query_free("?show_hidden_tags="@, show_hidden_tags_2);
            lemma_apart_concat(""@, query_flag("?show_hidden_tags="@, show_hidden_tags_1));
            lemma_apart_concat(""@, query_flag("?show_hidden_tags="@, show_hidden_tags_2));
            lemma_same_seg1("/games/"@, id_1@, id_2@, ""@, query_flag("?show_hidden_tags="@, show_hidden_tags_1), query_flag("?show_hidden_tags="@, show_hidden_tags_2));
            lemma_id_eq(id_1, id_2);
            lemma_query_flag_eq("?show_hidden_tags="@, show_hidden_tags_1, show_hidden_tags_2);
        },
        _ => {},
    }
}

#[verifier::spinoff_prover]
#[verifier::rlimit(60)]
proof fn lemma_skeleton_get_games(r: Route)
    requires
        r is GetGames,
    ensures
        skeleton(r.path_text()) == template(r),
{
    match r {
        Route::GetGames { show_hidden_tags } => {
            lemma_free_17();
            lemma_free_49();
            lemma_query_free("?show_hidden_tags="@, show_hidden_tags);
            lemma_skeleton_seg0("/games"@, query_flag("?show_hidden_tags="@, show_hidden_tags));
        },
        _ => {},
    }
}

#[verifier::spinoff_prover]
#[verifier::rlimit(60)]
proof fn lemma_kind_get_games(r: Route)
    requires
        r is GetGames,
    ensures
        route_kind_of(r.method_of(), template(r)) == kind(r),
{
    match r {
        Route::GetGames { show_hidden_tags, .. } => {
            reveal_strlit("/games"); reveal_strlit("?show_hidden_tags=");
            match show_hidden_tags {
                Some(b) => {
                    assert(bool_text(true) == seq!['t', 'r', 'u', 'e']);
                    assert(bool_text(false) == seq!['f', 'a', 'l', 's', 'e']);
                },
                None => {},
            }
        },
        _ => {},
    }
}

#[verifier::spinoff_prover]
#[verifier::rlimit(60)]
proof fn lemma_same_get_games(r1: Route, r2: Route)
    requires
        r1 is GetGames,
        r2 is GetGames,
        r1.path_text() == r2.path_text(),
    ensures
        r1 == r2,
{
    match (r1, r2) {
        (Route::GetGames { show_hidden_tags: show_hidden_tags_1 }, Route::GetGames { show_hidden_tags: show_hidden_tags_2 }) => {
            lemma_free_17();
            lemma_free_49();
            lemma_query_free("?show_hidden_tags="@, show_hidden_tags_1);
            lemma_query_free("?show_hidden_tags="@, show_hidden_tags_2);
            lemma_strip("/games"@, query_flag("?show_hidden_tags="@, show_hidden_tags_1), query_flag("?show_hidden_tags="@, show_hidden_tags_2));
            lemma_query_flag_eq("?show_hidden_tags="@, show_hidden_tags_1, show_hidden_tags_2);
        },
        _ => {},
    }
}

#[verifier::spinoff_prover]
#[verifier::rlimit(60)]
proof fn lemma_skeleton_get_game_stats(r: Route)
    requires
        r is GetGameStats,
    ensures
        skeleton(r.path_text()) == template(r),
{
    match r {
        Route::GetGameStats { game_id } => {
            lemma_free_18();
            lemma_free_42();
            lemma_skeleton_seg1("/games/"@, game_id@, "/stats"@, Seq::<char>::empty());
            assert(seg1("/games/"@, game_id@ as nat, "/stats"@) + Seq::<char>::empty() =~= seg1("/games/"@, game_id@ as nat, "/stats"@));
            assert(tseg1("/games/"@, "/stats"@) + Seq::<char>::empty() =~= tseg1("/games/"@, "/stats"@));
        },
        _ => {},
    }
}

#[verifier::spinoff_prover]
#[verifier::rlimit(60)]
proof fn lemma_kind_get_game_stats(r: Route)
    requires
        r is GetGameStats,
    ensures
        route_kind_of(r.method_of(), template(r)) == kind(r),
{
    reveal_strlit("/games/"); reveal_strlit("/stats");
}

#[verifier::spinoff_prover]
#[verifier::rlimit(60)]
proof fn lemma_same_get_game_stats(r1: Route, r2: Route)
    requires
        r1 is GetGameStats,
        r2 is GetGameStats,
        r1.path_text() == r2.path_text(),
    ensures
        r1 == r2,
{
    match (r1, r2) {
        (Route::GetGameStats { game_id: game_id_1 }, Route::GetGameStats { game_id: game_id_2 }) => {
            lemma_free_18();
            lemma_free_42();
            assert(seg1("/games/"@, game_id_1@ as nat, "/stats"@) + Seq::<char>::empty() =~= seg1("/games/"@, game_id_1@ as nat, "/stats"@));
            assert(seg1("/games/"@, game_id_2@ as nat, "/stats"@) + Seq::<char>::empty() =~= seg1("/games/"@, game_id_2@ as nat, "/stats"@));
            lemma_apart_concat("/stats"@, Seq::<char>::empty());
            lemma_apart_concat("/stats"@, Seq::<char>::empty());
            lemma_same_seg1("/games/"@, game_id_1@, game_id_2@, "/stats"@, Seq::<char>::empty(), Seq::<char>::empty());
            lemma_id_eq(game_id_1, game_id_2);
        },
        _ => {},
    }
}

#[verifier::spinoff_prover]
#[verifier::rlimit(60)]
proof fn lemma_skeleton_get_game_tags(r: Route)
    requires
        r is GetGameTags,
    ensures
        skeleton(r.path_text()) == template(r),
{
    match r {
        Route::GetGameTags { game_id, show_hidden_tags } => {
            lemma_free_18();
            lemma_free_44();
            lemma_free_49();
            lemma_query_free("?show_hidden_tags="@, show_hidden_tags);
            lemma_skeleton_seg1("/games/"@, game_id@, "/tags"@, query_flag("?show_hidden_tags="@, show_hidden_tags));
        },
        _ => {},
    }
}

#[verifier::spinoff_prover]
#[verifier::rlimit(60)]
proof fn lemma_kind_get_game_tags(r: Route)
    requires
        r is GetGameTags,
    ensures
        route_kind_of(r.method_of(), template(r)) == kind(r),
{
    match r {
        Route::GetGameTags { show_hidden_tags, .. } => {
            reveal_strlit("/games/"); reveal_strlit("/tags"); reveal_strlit("?show_hidden_tags=");
            match show_hidden_tags {
                Some(b) => {
                    assert(bool_text(true) == seq!['t', 'r', 'u', 'e']);
                    assert(bool_text(false) == seq!['f', 'a', 'l', 's', 'e']);
                },
                None => {},
            }
        },
        _ => {},
    }
}

#[verifier::spinoff_prover]
#[verifier::rlimit(60)]
proof fn lemma_same_get_game_tags(r1: Route, r2: Route)
    requires
        r1 is GetGameTags,
        r2 is GetGameTags,
        r1.path_text() == r2.path_text(),
    ensures
        r1 == r2,
{
    match (r1, r2) {
        (Route::GetGameTags { game_id: game_id_1, show_hidden_tags: show_hidden_tags_1 }, Route::GetGameTags { game_id: game_id_2, show_hidden_tags: show_hidden_tags_2 }) => {
            lemma_free_18();
            lemma_free_44();
            lemma_free_49();
            lemma_query_free("?show_hidden_tags="@, show_hidden_tags_1);
            lemma_query_free("?show_hidden_tags="@, show_hidden_tags_2);
            lemma_apart_concat("/tags"@, query_flag("?show_hidden_tags="@, show_hidden_tags_1));
            lemma_apart_concat("/tags"@, query_flag("?show_hidden_tags="@, show_hidden_tags_2));
            lemma_same_seg1("/games/"@, game_id_1@, game_id_2@, "/tags"@, query_flag("?show_hidden_tags="@, show_hidden_tags_1), query_flag("?show_hidden_tags="@, show_hidden_tags_2));
            lemma_id_eq(game_id_1, game_id_2);
            lemma_query_flag_eq("?show_hidden_tags="@, show_hidden_tags_1, show_hidden_tags_2);
        },
        _ => {},
    }
}

#[verifier::spinoff_prover]
#[verifier::rlimit(60)]
proof fn lemma_skeleton_get_mod(r: Route)
    requires
        r is GetMod,
    ensures
        skeleton(r.path_text()) == template(r),
{
    match r {
        Route::GetMod { game_id, mod_id } => {
            lemma_free_18();
            lemma_free_32();
            lemma_free_0();
            lemma_skeleton_seg2("/games/"@, game_id@, "/mods/"@, mod_id@, ""@, Seq::<char>::empty());
            assert(seg2("/games/"@, game_id@ as nat, "/mods/"@, mod_id@ as nat, ""@) + Seq::<char>::empty() =~= seg2("/games/"@, game_id@ as nat, "/mods/"@, mod_id@ as nat, ""@));
            assert(tseg2("/games/"@, "/mods/"@, ""@) + Seq::<char>::empty() =~= tseg2("/games/"@, "/mods/"@, ""@));
        },
        _ => {},
    }
}

#[verifier::spinoff_prover]
#[verifier::rlimit(60)]
proof fn lemma_kind_get_mod(r: Route)
    requires
        r is GetMod,
    ensures
        route_kind_of(r.method_of(), template(r)) == kind(r),
{
    reveal_strlit("/games/"); reveal_strlit("/mods/"); reveal_strlit("");
}

#[verifier::spinoff_prover]
#[verifier::rlimit(60)]
proof fn lemma_same_get_mod(r1: Route, r2: Route)
    requires
        r1 is GetMod,
        r2 is GetMod,
        r1.path_text() == r2.path_text(),
    ensures
        r1 == r2,
{
    match (r1, r2) {
        (Route::GetMod { game_id: game_id_1, mod_id: mod_id_1 }, Route::GetMod { game_id: game_id_2, mod_id: mod_id_2 }) => {
            lemma_free_18();
            lemma_free_32();
            lemma_free_0();
            assert(seg2("/games/"@, game_id_1@ as nat, "/mods/"@, mod_id_1@ as nat, ""@) + Seq::<char>::empty() =~= seg2("/games/"@, game_id_1@ as nat, "/mods/"@, mod_id_1@ as nat, ""@));
            assert(seg2("/games/"@, game_id_2@ as nat, "/mods/"@, mod_id_2@ as nat, ""@) + Seq::<char>::empty() =~= seg2("/games/"@, game_id_2@ as nat, "/mods/"@, mod_id_2@ as nat, ""@));
            lemma_apart_concat(""@, Seq::<char>::empty());
            lemma_apart_concat(""@, Seq::<char>::empty());
            lemma_same_seg2("/games/"@, game_id_1@, game_id_2@, "/mods/"@, mod_id_1@, mod_id_2@, ""@, Seq::<char>::empty(), Seq::<char>::empty());
            lemma_id_eq(game_id_1, game_id_2);
            lemma_id_eq(mod_id_1, mod_id_2);
        },
        _ => {},
    }
}

#[verifier::spinoff_prover]
#[verifier::rlimit(60)]
proof fn lemma_skeleton_get_mod_comment(r: Route)
    requires
        r is GetModComment,
    ensures
        skeleton(r.path_text()) == template(r),
{
    match r {
        Route::GetModComment { game_id, mod_id, comment_id } => {
            lemma_free_18();
            lemma_free_32();
            lemma_free_3();
            lemma_free_0();
            lemma_skeleton_seg3("/games/"@, game_id@, "/mods/"@, mod_id@, "/comments/"@, comment_id@, ""@, Seq::<char>::empty());
            assert(seg3("/games/"@, game_id@ as nat, "/mods/"@, mod_id@ as nat, "/comments/"@, comment_id@ as nat, ""@) + Seq::<char>::empty() =~= seg3("/games/"@, game_id@ as nat, "/mods/"@, mod_id@ as nat, "/comments/"@, comment_id@ as nat, ""@));
            assert(tseg3("/games/"@, "/mods/"@, "/comments/"@, ""@) + Seq::<char>::empty() =~= tseg3("/games/"@, "/mods/"@, "/comments/"@, ""@));
        },
        _ => {},
    }
}

#[verifier::spinoff_prover]
#[verifier::rlimit(60)]
proof fn lemma_kind_get_mod_comment(r: Route)
    requires
        r is GetModComment,
    ensures
        route_kind_of(r.method_of(), template(r)) == kind(r),
{
    reveal_strlit("/games/"); reveal_strlit("/mods/"); reveal_strlit("/comments/"); reveal_strlit("");
}

#[verifier::spinoff_prover]
#[verifier::rlimit(60)]
proof fn lemma_same_get_mod_comment(r1: Route, r2: Route)
    requires
        r1 is GetModComment,
        r2 is GetModComment,
        r1.path_text() == r2.path_text(),
    ensures
        r1 == r2,
{
    match (r1, r2) {
        (Route::GetModComment { game_id: game_id_1, mod_id: mod_id_1, comment_id: comment_id_1 }, Route::GetModComment { game_id: game_id_2, mod_id: mod_id_2, comment_id: comment_id_2 }) => {
            lemma_free_18();
            lemma_free_32();
            lemma_free_3();
            lemma_free_0();
            assert(seg3("/games/"@, game_id_1@ as nat, "/mods/"@, mod_id_1@ as nat, "/comments/"@, comment_id_1@ as nat, ""@) + Seq::<char>::empty() =~= seg3("/games/"@, game_id_1@ as nat, "/mods/"@, mod_id_1@ as nat, "/comments/"@, comment_id_1@ as nat, ""@));
            assert(seg3("/games/"@, game_id_2@ as nat, "/mods/"@, mod_id_2@ as nat, "/comments/"@, comment_id_2@ as nat, ""@) + Seq::<char>::empty() =~= seg3("/games/"@, game_id_2@ as nat, "/mods/"@, mod_id_2@ as nat, "/comments/"@, comment_id_2@ as nat, ""@));
            lemma_same_seg3("/games/"@, game_id_1@, game_id_2@, "/mods/"@, mod_id_1@, mod_id_2@, "/comments/"@, comment_id_1@, comment_id_2@, ""@, Seq::<char>::empty(), Seq::<char>::empty());
            lemma_id_eq(game_id_1, game_id_2);
            lemma_id_eq(mod_id_1, mod_id_2);
            lemma_id_eq(comment_id_1, comment_id_2);
        },
        _ => {},
    }
}

#[verifier::spinoff_prover]
#[verifier::rlimit(60)]
proof fn lemma_skeleton_get_mod_comments(r: Route)
    requires
        r is GetModComments,
    ensures
        skeleton(r.path_text()) == template(r),
{
    match r {
        Route::GetModComments { game_id, mod_id } => {
            lemma_free_18();
            lemma_free_32();
            lemma_free_2();
            lemma_skeleton_seg2("/games/"@, game_id@, "/mods/"@, mod_id@, "/comments"@, Seq::<char>::empty());
            assert(seg2("/games/"@, game_id@ as nat, "/mods/"@, mod_id@ as nat, "/comments"@) + Seq::<char>::empty() =~= seg2("/games/"@, game_id@ as nat, "/mods/"@, mod_id@ as nat, "/comments"@));
            assert(tseg2("/games/"@, "/mods/"@, "/comments"@) + Seq::<char>::empty() =~= tseg2("/games/"@, "/mods/"@, "/comments"@));
        },
        _ => {},
    }
}

#[verifier::spinoff_prover]
#[verifier::rlimit(60)]
proof fn lemma_kind_get_mod_comments(r: Route)
    requires
        r is GetModComments,
    ensures
        route_kind_of(r.method_of(), template(r)) == kind(r),
{
    reveal_strlit("/games/"); reveal_strlit("/mods/"); reveal_strlit("/comments");
}

#[verifier::spinoff_prover]
#[verifier::rlimit(60)]
proof fn lemma_same_get_mod_comments(r1: Route, r2: Route)
    requires
        r1 is GetModComments,
        r2 is GetModComments,
        r1.path_text() == r2.path_text(),
    ensures
        r1 == r2,
{
    match (r1, r2) {
        (Route::GetModComments { game_id: game_id_1, mod_id: mod_id_1 }, Route::GetModComments { game_id: game_id_2, mod_id: mod_id_2 }) => {
            lemma_free_18();
            lemma_free_32();
            lemma_free_2();
            assert(seg2("/games/"@, game_id_1@ as nat, "/mods/"@, mod_id_1@ as nat, "/comments"@) + Seq::<char>::empty() =~= seg2("/games/"@, game_id_1@ as nat, "/mods/"@, mod_id_1@ as nat, "/comments"@));
            assert(seg2("/games/"@, game_id_2@ as nat, "/mods/"@, mod_id_2@ as nat, "/comments"@) + Seq::<char>::empty() =~= seg2("/games/"@, game_id_2@ as nat, "/mods/"@, mod_id_2@ as nat, "/comments"@));
            lemma_apart_concat("/comments"@, Seq::<char>::empty());
            lemma_apart_concat("/comments"@, Seq::<char>::empty());
            lemma_same_seg2("/games/"@, game_id_1@, game_id_2@, "/mods/"@, mod_id_1@, mod_id_2@, "/comments"@, Seq::<char>::empty(), Seq::<char>::empty());
            lemma_id_eq(game_id_1, game_id_2);
            lemma_id_eq(mod_id_1, mod_id_2);
        },
        _ => {},
    }
}

#[verifier::spinoff_prover]
#[verifier::rlimit(60)]
proof fn lemma_skeleton_get_mod_dependencies(r: Route)
    requires
        r is GetModDependencies,
    ensures
        skeleton(r.path_text()) == template(r),
{
    match r {
        Route::GetModDependencies { game_id, mod_id, recursive } => {
            lemma_free_18();
            lemma_free_32();
            lemma_free_4();
            lemma_free_48();
            lemma_query_free("?recursive="@, recursive);
            lemma_skeleton_seg2("/games/"@, game_id@, "/mods/"@, mod_id@, "/dependencies"@, query_flag("?recursive="@, recursive));
        },
        _ => {},
    }
}

#[verifier::spinoff_prover]
#[verifier::rlimit(60)]
proof fn lemma_kind_get_mod_dependencies(r: Route)
    requires
        r is GetModDependencies,
    ensures
        route_kind_of(r.method_of(), template(r)) == kind(r),
{
    match r {
        Route::GetModDependencies { recursive, .. } => {
            reveal_strlit("/games/"); reveal_strlit("/mods/"); reveal_strlit("/dependencies"); reveal_strlit("?recursive=");
            match recursive {
                Some(b) => {
                    assert(bool_text(true) == seq!['t', 'r', 'u', 'e']);
                    assert(bool_text(false) == seq!['f', 'a', 'l', 's', 'e']);
                },
                None => {},
            }
        },
        _ => {},
    }
}

#[verifier::spinoff_prover]
#[verifier::rlimit(60)]
proof fn lemma_same_get_mod_dependencies(r1: Route, r2: Route)
    requires
        r1 is GetModDependencies,
        r2 is GetModDependencies,
        r1.path_text() == r2.path_text(),
    ensures
        r1 == r2,
{
    match (r1, r2) {
        (Route::GetModDependencies { game_id: game_id_1, mod_id: mod_id_1, recursive: recursive_1 }, Route::GetModDependencies { game_id: game_id_2, mod_id: mod_id_2, recursive: recursive_2 }) => {
            lemma_free_18();
            lemma_free_32();
            lemma_free_4();
            lemma_free_48();
            lemma_query_free("?recursive="@, recursive_1);
            lemma_query_free("?recursive="@, recursive_2);
            lemma_apart_concat("/dependencies"@, query_flag("?recursive="@, recursive_1));
            lemma_apart_concat("/dependencies"@, query_flag("?recursive="@, recursive_2));
            lemma_same_seg2("/games/"@, game_id_1@, game_id_2@, "/mods/"@, mod_id_1@, mod_id_2@, "/dependencies"@, query_flag("?recursive="@, recursive_1), query_flag("?recursive="@, recursive_2));
            lemma_id_eq(game_id_1, game_id_2);
            lemma_id_eq(mod_id_1, mod_id_2);
            lemma_query_flag_eq("?recursive="@, recursive_1, recursive_2);
        },
        _ => {},
    }
}

#[verifier::spinoff_prover]
#[verifier::rlimit(60)]
proof fn lemma_skeleton_get_mod_events(r: Route)
    requires
        r is GetModEvents,
    ensures
        skeleton(r.path_text()) == template(r),
{
    match r {
        Route::GetModEvents { game_id, mod_id } => {
            lemma_free_18();
            lemma_free_32();
            lemma_free_5();
            lemma_skeleton_seg2("/games/"@, game_id@, "/mods/"@, mod_id@, "/events"@, Seq::<char>::empty());
            assert(seg2("/games/"@, game_id@ as nat, "/mods/"@, mod_id@ as nat, "/events"@) + Seq::<char>::empty() =~= seg2("/games/"@, game_id@ as nat, "/mods/"@, mod_id@ as nat, "/events"@));
            assert(tseg2("/games/"@, "/mods/"@, "/events"@) + Seq::<char>::empty() =~= tseg2("/games/"@, "/mods/"@, "/events"@));
        },
        _ => {},
    }
}

#[verifier::spinoff_prover]
#[verifier::rlimit(60)]
proof fn lemma_kind_get_mod_events(r: Route)
    requires
        r is GetModEvents,
    ensures
        route_kind_of(r.method_of(), template(r)) == kind(r),
{
    reveal_strlit("/games/"); reveal_strlit("/mods/"); reveal_strlit("/events");
}

#[verifier::spinoff_prover]
#[verifier::rlimit(60)]
proof fn lemma_same_get_mod_events(r1: Route, r2: Route)
    requires
        r1 is GetModEvents,
        r2 is GetModEvents,
        r1.path_text() == r2.path_text(),
    ensures
        r1 == r2,
{
    match (r1, r2) {
        (Route::GetModEvents { game_id: game_id_1, mod_id: mod_id_1 }, Route::GetModEvents { game_id: game_id_2, mod_id: mod_id_2 }) => {
            lemma_free_18();
            lemma_free_32();
            lemma_free_5();
            assert(seg2("/games/"@, game_id_1@ as nat, "/mods/"@, mod_id_1@ as nat, "/events"@) + Seq::<char>::empty() =~= seg2("/games/"@, game_id_1@ as nat, "/mods/"@, mod_id_1@ as nat, "/events"@));
            assert(seg2("/games/"@, game_id_2@ as nat, "/mods/"@, mod_id_2@ as nat, "/events"@) + Seq::<char>::empty() =~= seg2("/games/"@, game_id_2@ as nat, "/mods/"@, mod_id_2@ as nat, "/events"@));
            lemma_apart_concat("/events"@, Seq::<char>::empty());
            lemma_apart_concat("/events"@, Seq::<char>::empty());
            lemma_same_seg2("/games/"@, game_id_1@, game_id_2@, "/mods/"@, mod_id_1@, mod_id_2@, "/events"@, Seq::<char>::empty(), Seq::<char>::empty());
            lemma_id_eq(game_id_1, game_id_2);
            lemma_id_eq(mod_id_1, mod_id_2);
        },
        _ => {},
    }
}

#[verifier::spinoff_prover]
#[verifier::rlimit(60)]
proof fn lemma_skeleton_get_mod_metadata(r: Route)
    requires
        r is GetModMetadata,
    ensures
        skeleton(r.path_text()) == template(r),
{
    match r {
        Route::GetModMetadata { game_id, mod_id } => {
            lemma_free_18();
            lemma_free_32();
            lemma_free_30();
            lemma_skeleton_seg2("/games/"@, game_id@, "/mods/"@, mod_id@, "/metadatakvp"@, Seq::<char>::empty());
            assert(seg2("/games/"@, game_id@ as nat, "/mods/"@, mod_id@ as nat, "/metadatakvp"@) + Seq::<char>::empty() =~= seg2("/games/"@, game_id@ as nat, "/mods/"@, mod_id@ as nat, "/metadatakvp"@));
            assert(tseg2("/games/"@, "/mods/"@, "/metadatakvp"@) + Seq::<char>::empty() =~= tseg2("/games/"@, "/mods/"@, "/metadatakvp"@));
        },
        _ => {},
    }
}

#[verifier::spinoff_prover]
#[verifier::rlimit(60)]
proof fn lemma_kind_get_mod_metadata(r: Route)
    requires
        r is GetModMetadata,
    ensures
        route_kind_of(r.method_of(), template(r)) == kind(r),
{
    reveal_strlit("/games/"); reveal_strlit("/mods/"); reveal_strlit("/metadatakvp");
}

#[verifier::spinoff_prover]
#[verifier::rlimit(60)]
proof fn lemma_same_get_mod_metadata(r1: Route, r2: Route)
    requires
        r1 is GetModMetadata,
        r2 is GetModMetadata,
        r1.path_text() == r2.path_text(),
    ensures
        r1 == r2,
{
    match (r1, r2) {
        (Route::GetModMetadata { game_id: game_id_1, mod_id: mod_id_1 }, Route::GetModMetadata { game_id: game_id_2, mod_id: mod_id_2 }) => {
            lemma_free_18();
            lemma_free_32();
            lemma_free_30();
            assert(seg2("/games/"@, game_id_1@ as nat, "/mods/"@, mod_id_1@ as nat, "/metadatakvp"@) + Seq::<char>::empty() =~= seg2("/games/"@, game_id_1@ as nat, "/mods/"@, mod_id_1@ as nat, "/metadatakvp"@));
            assert(seg2("/games/"@, game_id_2@ as nat, "/mods/"@, mod_id_2@ as nat, "/metadatakvp"@) + Seq::<char>::empty() =~= seg2("/games/"@, game_id_2@ as nat, "/mods/"@, mod_id_2@ as nat, "/metadatakvp"@));
            lemma_apart_concat("/metadatakvp"@, Seq::<char>::empty());
            lemma_apart_concat("/metadatakvp"@, Seq::<char>::empty());
            lemma_same_seg2("/games/"@, game_id_1@, game_id_2@, "/mods/"@, mod_id_1@, mod_id_2@, "/metadatakvp"@, Seq::<char>::empty(), Seq::<char>::empty());
            lemma_id_eq(game_id_1, game_id_2);
            lemma_id_eq(mod_id_1, mod_id_2);
        },
        _ => {},
    }
}

#[verifier::spinoff_prover]
#[verifier::rlimit(60)]
proof fn lemma_skeleton_get_mod_stats(r: Route)
    requires
        r is GetModStats,
    ensures
        skeleton(r.path_text()) == template(r),
{
    match r {
        Route::GetModStats { game_id, mod_id } => {
            lemma_free_18();
            lemma_free_32();
            lemma_free_42();
            lemma_skeleton_seg2("/games/"@, game_id@, "/mods/"@, mod_id@, "/stats"@, Seq::<char>::empty());
            assert(seg2("/games/"@, game_id@ as nat, "/mods/"@, mod_id@ as nat, "/stats"@) + Seq::<char>::empty() =~= seg2("/games/"@, game_id@ as nat, "/mods/"@, mod_id@ as nat, "/stats"@));
            assert(tseg2("/games/"@, "/mods/"@, "/stats"@) + Seq::<char>::empty() =~= tseg2("/games/"@, "/mods/"@, "/stats"@));
        },
        _ => {},
    }
}

#[verifier::spinoff_prover]
#[verifier::rlimit(60)]
proof fn lemma_kind_get_mod_stats(r: Route)
    requires
        r is GetModStats,
    ensures
        route_kind_of(r.method_of(), template(r)) == kind(r),
{
    reveal_strlit("/games/"); reveal_strlit("/mods/"); reveal_strlit("/stats");
}

#[verifier::spinoff_prover]
#[verifier::rlimit(60)]
proof fn lemma_same_get_mod_stats(r1: Route, r2: Route)
    requires
        r1 is GetModStats,
        r2 is GetModStats,
        r1.path_text() == r2.path_text(),
    ensures
        r1 == r2,
{
    match (r1, r2) {
        (Route::GetModStats { game_id: game_id_1, mod_id: mod_id_1 }, Route::GetModStats { game_id: game_id_2, mod_id: mod_id_2 }) => {
            lemma_free_18();
            lemma_free_32();
            lemma_free_42();
            assert(seg2("/games/"@, game_id_1@ as nat, "/mods/"@, mod_id_1@ as nat, "/stats"@) + Seq::<char>::empty() =~= seg2("/games/"@, game_id_1@ as nat, "/mods/"@, mod_id_1@ as nat, "/stats"@));
            assert(seg2("/games/"@, game_id_2@ as nat, "/mods/"@, mod_id_2@ as nat, "/stats"@) + Seq::<char>::empty() =~= seg2("/games/"@, game_id_2@ as nat, "/mods/"@, mod_id_2@ as nat, "/stats"@));
            lemma_apart_concat("/stats"@, Seq::<char>::empty());
            lemma_apart_concat("/stats"@, Seq::<char>::empty());
            lemma_same_seg2("/games/"@, game_id_1@, game_id_2@, "/mods/"@, mod_id_1@, mod_id_2@, "/stats"@, Seq::<char>::empty(), Seq::<char>::empty());
            lemma_id_eq(game_id_1, game_id_2);
            lemma_id_eq(mod_id_1, mod_id_2);
        },
        _ => {},
    }
}

#[verifier::spinoff_prover]
#[verifier::rlimit(60)]
proof fn lemma_skeleton_get_mod_tags(r: Route)
    requires
        r is GetModTags,
    ensures
        skeleton(r.path_text()) == template(r),
{
    match r {
        Route::GetModTags { game_id, mod_id } => {
            lemma_free_18();
            lemma_free_32();
            lemma_free_44();
            lemma_skeleton_seg2("/games/"@, game_id@, "/mods/"@, mod_id@, "/tags"@, Seq::<char>::empty());
            assert(seg2("/games/"@, game_id@ as nat, "/mods/"@, mod_id@ as nat, "/tags"@) + Seq::<char>::empty() =~= seg2("/games/"@, game_id@ as nat, "/mods/"@, mod_id@ as nat, "/tags"@));
            assert(tseg2("/games/"@, "/mods/"@, "/tags"@) + Seq::<char>::empty() =~= tseg2("/games/"@, "/mods/"@, "/tags"@));
        },
        _ => {},
    }
}

#[verifier::spinoff_prover]
#[verifier::rlimit(60)]
proof fn lemma_kind_get_mod_tags(r: Route)
    requires
        r is GetModTags,
    ensures
        route_kind_of(r.method_of(), template(r)) == kind(r),
{
    reveal_strlit("/games/"); reveal_strlit("/mods/"); reveal_strlit("/tags");
}

#[verifier::spinoff_prover]
#[verifier::rlimit(60)]
proof fn lemma_same_get_mod_tags(r1: Route, r2: Route)
    requires
        r1 is GetModTags,
        r2 is GetModTags,
        r1.path_text() == r2.path_text(),
    ensures
        r1 == r2,
{
    match (r1, r2) {
        (Route::GetModTags { game_id: game_id_1, mod_id: mod_id_1 }, Route::GetModTags { game_id: game_id_2, mod_id: mod_id_2 }) => {
            lemma_free_18();
            lemma_free_32();
            lemma_free_44();
            assert(seg2("/games/"@, game_id_1@ as nat, "/mods/"@, mod_id_1@ as nat, "/tags"@) + Seq::<char>::empty() =~= seg2("/games/"@, game_id_1@ as nat, "/mods/"@, mod_id_1@ as nat, "/tags"@));
            assert(seg2("/games/"@, game_id_2@ as nat, "/mods/"@, mod_id_2@ as nat, "/tags"@) + Seq::<char>::empty() =~= seg2("/games/"@, game_id_2@ as nat, "/mods/"@, mod_id_2@ as nat, "/tags"@));
            lemma_apart_concat("/tags"@, Seq::<char>::empty());
            lemma_apart_concat("/tags"@, Seq::<char>::empty());
            lemma_same_seg2("/games/"@, game_id_1@, game_id_2@, "/mods/"@, mod_id_1@, mod_id_2@, "/tags"@, Seq::<char>::empty(), Seq::<char>::empty());
            lemma_id_eq(game_id_1, game_id_2);
            lemma_id_eq(mod_id_1, mod_id_2);
        },
        _ => {},
    }
}

#[verifier::spinoff_prover]
#[verifier::rlimit(60)]
proof fn lemma_skeleton_get_mod_team_members(r: Route)
    requires
        r is GetModTeamMembers,
    ensures
        skeleton(r.path_text()) == template(r),
{
    match r {
        Route::GetModTeamMembers { game_id, mod_id } => {
            lemma_free_18();
            lemma_free_32();
            lemma_free_46();
            lemma_skeleton_seg2("/games/"@, game_id@, "/mods/"@, mod_id@, "/team"@, Seq::<char>::empty());
            assert(seg2("/games/"@, game_id@ as nat, "/mods/"@, mod_id@ as nat, "/team"@) + Seq::<char>::empty() =~= seg2("/games/"@, game_id@ as nat, "/mods/"@, mod_id@ as nat, "/team"@));
            assert(tseg2("/games/"@, "/mods/"@, "/team"@) + Seq::<char>::empty() =~= tseg2("/games/"@, "/mods/"@, "/team"@));
        },
        _ => {},
    }
}

#[verifier::spinoff_prover]
#[verifier::rlimit(60)]
proof fn lemma_kind_get_mod_team_members(r: Route)
    requires
        r is GetModTeamMembers,
    ensures
        route_kind_of(r.method_of(), template(r)) == kind(r),
{
    reveal_strlit("/games/"); reveal_strlit("/mods/"); reveal_strlit("/team");
}

#[verifier::spinoff_prover]
#[verifier::rlimit(60)]
proof fn lemma_same_get_mod_team_members(r1: Route, r2: Route)
    requires
        r1 is GetModTeamMembers,
        r2 is GetModTeamMembers,
        r1.path_text() == r2.path_text(),
    ensures
        r1 == r2,
{
    match (r1, r2) {
        (Route::GetModTeamMembers { game_id: game_id_1, mod_id: mod_id_1 }, Route::GetModTeamMembers { game_id: game_id_2, mod_id: mod_id_2 }) => {
            lemma_free_18();
            lemma_free_32();
            lemma_free_46();
            assert(seg2("/games/"@, game_id_1@ as nat, "/mods/"@, mod_id_1@ as nat, "/team"@) + Seq::<char>::empty() =~= seg2("/games/"@, game_id_1@ as nat, "/mods/"@, mod_id_1@ as nat, "/team"@));
            assert(seg2("/games/"@, game_id_2@ as nat, "/mods/"@, mod_id_2@ as nat, "/team"@) + Seq::<char>::empty() =~= seg2("/games/"@, game_id_2@ as nat, "/mods/"@, mod_id_2@ as nat, "/team"@));
            lemma_apart_concat("/team"@, Seq::<char>::empty());
            lemma_apart_concat("/team"@, Seq::<char>::empty());
            lemma_same_seg2("/games/"@, game_id_1@, game_id_2@, "/mods/"@, mod_id_1@, mod_id_2@, "/team"@, Seq::<char>::empty(), Seq::<char>::empty());
            lemma_id_eq(game_id_1, game_id_2);
            lemma_id_eq(mod_id_1, mod_id_2);
        },
        _ => {},
    }
}

#[verifier::spinoff_prover]
#[verifier::rlimit(60)]
proof fn lemma_skeleton_get_mods(r: Route)
    requires
        r is GetMods,
    ensures
        skeleton(r.path_text()) == template(r),
{
    match r {
        Route::GetMods { game_id } => {
            lemma_free_18();
            lemma_free_31();
            lemma_skeleton_seg1("/games/"@, game_id@, "/mods"@, Seq::<char>::empty());
            assert(seg1("/games/"@, game_id@ as nat, "/mods"@) + Seq::<char>::empty() =~= seg1("/games/"@, game_id@ as nat, "/mods"@));
            assert(tseg1("/games/"@, "/mods"@) + Seq::<char>::empty() =~= tseg1("/games/"@, "/mods"@));
        },
        _ => {},
    }
}

#[verifier::spinoff_prover]
#[verifier::rlimit(60)]
proof fn lemma_kind_get_mods(r: Route)
    requires
        r is GetMods,
    ensures
        route_kind_of(r.method_of(), template(r)) == kind(r),
{
    reveal_strlit("/games/"); reveal_strlit("/mods");
}

#[verifier::spinoff_prover]
#[verifier::rlimit(60)]
proof fn lemma_same_get_mods(r1: Route, r2: Route)
    requires
        r1 is GetMods,
        r2 is GetMods,
        r1.path_text() == r2.path_text(),
    ensures
        r1 == r2,
{
    match (r1, r2) {
        (Route::GetMods { game_id: game_id_1 }, Route::GetMods { game_id: game_id_2 }) => {
            lemma_free_18();
            lemma_free_31();
            assert(seg1("/games/"@, game_id_1@ as nat, "/mods"@) + Seq::<char>::empty() =~= seg1("/games/"@, game_id_1@ as nat, "/mods"@));
            assert(seg1("/games/"@, game_id_2@ as nat, "/mods"@) + Seq::<char>::empty() =~= seg1("/games/"@, game_id_2@ as nat, "/mods"@));
            lemma_apart_concat("/mods"@, Seq::<char>::empty());
            lemma_apart_concat("/mods"@, Seq::<char>::empty());
            lemma_same_seg1("/games/"@, game_id_1@, game_id_2@, "/mods"@, Seq::<char>::empty(), Seq::<char>::empty());
            lemma_id_eq(game_id_1, game_id_2);
        },
        _ => {},
    }
}

#[verifier::spinoff_prover]
#[verifier::rlimit(60)]
proof fn lemma_skeleton_get_mods_events(r: Route)
    requires
        r is GetModsEvents,
    ensures
        skeleton(r.path_text()) == template(r),
{
    match r {
        Route::GetModsEvents { game_id } => {
            lemma_free_18();
            lemma_free_33();
            lemma_skeleton_seg1("/games/"@, game_id@, "/mods/events"@, Seq::<char>::empty());
            assert(seg1("/games/"@, game_id@ as nat, "/mods/events"@) + Seq::<char>::empty() =~= seg1("/games/"@, game_id@ as nat, "/mods/events"@));
            assert(tseg1("/games/"@, "/mods/events"@) + Seq::<char>::empty() =~= tseg1("/games/"@, "/mods/events"@));
        },
        _ => {},
    }
}

#[verifier::spinoff_prover]
#[verifier::rlimit(60)]
proof fn lemma_kind_get_mods_events(r: Route)
    requires
        r is GetModsEvents,
    ensures
        route_kind_of(r.method_of(), template(r)) == kind(r),
{
    reveal_strlit("/games/"); reveal_strlit("/mods/events");
}

#[verifier::spinoff_prover]
#[verifier::rlimit(60)]
proof fn lemma_same_get_mods_events(r1: Route, r2: Route)
    requires
        r1 is GetModsEvents,
        r2 is GetModsEvents,
        r1.path_text() == r2.path_text(),
    ensures
        r1 == r2,
{
    match (r1, r2) {
        (Route::GetModsEvents { game_id: game_id_1 }, Route::GetModsEvents { game_id: game_id_2 }) => {
            lemma_free_18();
            lemma_free_33();
            assert(seg1("/games/"@, game_id_1@ as nat, "/mods/events"@) + Seq::<char>::empty() =~= seg1("/games/"@, game_id_1@ as nat, "/mods/events"@));
            assert(seg1("/games/"@, game_id_2@ as nat, "/mods/events"@) + Seq::<char>::empty() =~= seg1("/games/"@, game_id_2@ as nat, "/mods/events"@));
            lemma_apart_concat("/mods/events"@, Seq::<char>::empty());
            lemma_apart_concat("/mods/events"@, Seq::<char>::empty());
            lemma_same_seg1("/games/"@, game_id_1@, game_id_2@, "/mods/events"@, Seq::<char>::empty(), Seq::<char>::empty());
            lemma_id_eq(game_id_1, game_id_2);
        },
        _ => {},
    }
}

#[verifier::spinoff_prover]
#[verifier::rlimit(60)]
proof fn lemma_skeleton_get_mods_stats(r: Route)
    requires
        r is GetModsStats,
    ensures
        skeleton(r.path_text()) == template(r),
{
    match r {
        Route::GetModsStats { game_id } => {
            lemma_free_18();
            lemma_free_34();
            lemma_skeleton_seg1("/games/"@, game_id@, "/mods/stats"@, Seq::<char>::empty());
            assert(seg1("/games/"@, game_id@ as nat, "/mods/stats"@) + Seq::<char>::empty() =~= seg1("/games/"@, game_id@ as nat, "/mods/stats"@));
            assert(tseg1("/games/"@, "/mods/stats"@) + Seq::<char>::empty() =~= tseg1("/games/"@, "/mods/stats"@));
        },
        _ => {},
    }
}

#[verifier::spinoff_prover]
#[verifier::rlimit(60)]
proof fn lemma_kind_get_mods_stats(r: Route)
    requires
        r is GetModsStats,
    ensures
        route_kind_of(r.method_of(), template(r)) == kind(r),
{
    reveal_strlit("/games/"); reveal_strlit("/mods/stats");
}

#[verifier::spinoff_prover]
#[verifier::rlimit(60)]
proof fn lemma_same_get_mods_stats(r1: Route, r2: Route)
    requires
        r1 is GetModsStats,
        r2 is GetModsStats,
        r1.path_text() == r2.path_text(),
    ensures
        r1 == r2,
{
    match (r1, r2) {
        (Route::GetModsStats { game_id: game_id_1 }, Route::GetModsStats { game_id: game_id_2 }) => {
            lemma_free_18();
            lemma_free_34();
            assert(seg1("/games/"@, game_id_1@ as nat, "/mods/stats"@) + Seq::<char>::empty() =~= seg1("/games/"@, game_id_1@ as nat, "/mods/stats"@));
            assert(seg1("/games/"@, game_id_2@ as nat, "/mods/stats"@) + Seq::<char>::empty() =~= seg1("/games/"@, game_id_2@ as nat, "/mods/stats"@));
            lemma_apart_concat("/mods/stats"@, Seq::<char>::empty());
            lemma_apart_concat("/mods/stats"@, Seq::<char>::empty());
            lemma_same_seg1("/games/"@, game_id_1@, game_id_2@, "/mods/stats"@, Seq::<char>::empty(), Seq::<char>::empty());
            lemma_id_eq(game_id_1, game_id_2);
        },
        _ => {},
    }
}

#[verifier::spinoff_prover]
#[verifier::rlimit(60)]
proof fn lemma_skeleton_manage_platform_status(r: Route)
    requires
        r is ManagePlatformStatus,
    ensures
        skeleton(r.path_text()) == template(r),
{
    match r {
        Route::ManagePlatformStatus { game_id, mod_id, file_id } => {
            lemma_free_18();
            lemma_free_32();
            lemma_free_16();
            lemma_free_39();
            lemma_skeleton_seg3("/games/"@, game_id@, "/mods/"@, mod_id@, "/files/"@, file_id@, "/platforms"@, Seq::<char>::empty());
            assert(seg3("/games/"@, game_id@ as nat, "/mods/"@, mod_id@ as nat, "/files/"@, file_id@ as nat, "/platforms"@) + Seq::<char>::empty() =~= seg3("/games/"@, game_id@ as nat, "/mods/"@, mod_id@ as nat, "/files/"@, file_id@ as nat, "/platforms"@));
            assert(tseg3("/games/"@, "/mods/"@, "/files/"@, "/platforms"@) + Seq::<char>::empty() =~= tseg3("/games/"@, "/mods/"@, "/files/"@, "/platforms"@));
        },
        _ => {},
    }
}

#[verifier::spinoff_prover]
#[verifier::rlimit(60)]
proof fn lemma_kind_manage_platform_status(r: Route)
    requires
        r is ManagePlatformStatus,
    ensures
        route_kind_of(r.method_of(), template(r)) == kind(r),
{
    reveal_strlit("/games/"); reveal_strlit("/mods/"); reveal_strlit("/files/"); reveal_strlit("/platforms");
}

#[verifier::spinoff_prover]
#[verifier::rlimit(60)]
proof fn lemma_same_manage_platform_status(r1: Route, r2: Route)
    requires
        r1 is ManagePlatformStatus,
        r2 is ManagePlatformStatus,
        r1.path_text() == r2.path_text(),
    ensures
        r1 == r2,
{
    match (r1, r2) {
        (Route::ManagePlatformStatus { game_id: game_id_1, mod_id: mod_id_1, file_id: file_id_1 }, Route::ManagePlatformStatus { game_id: game_id_2, mod_id: mod_id_2, file_id: file_id_2 }) => {
            lemma_free_18();
            lemma_free_32();
            lemma_free_16();
            lemma_free_39();
            assert(seg3("/games/"@, game_id_1@ as nat, "/mods/"@, mod_id_1@ as nat, "/files/"@, file_id_1@ as nat, "/platforms"@) + Seq::<char>::empty() =~= seg3("/games/"@, game_id_1@ as nat, "/mods/"@, mod_id_1@ as nat, "/files/"@, file_id_1@ as nat, "/platforms"@));
            assert(seg3("/games/"@, game_id_2@ as nat, "/mods/"@, mod_id_2@ as nat, "/files/"@, file_id_2@ as nat, "/platforms"@) + Seq::<char>::empty() =~= seg3("/games/"@, game_id_2@ as nat, "/mods/"@, mod_id_2@ as nat, "/files/"@, file_id_2@ as nat, "/platforms"@));
            lemma_same_seg3("/games/"@, game_id_1@, game_id_2@, "/mods/"@, mod_id_1@, mod_id_2@, "/files/"@, file_id_1@, file_id_2@, "/platforms"@, Seq::<char>::empty(), Seq::<char>::empty());
            lemma_id_eq(game_id_1, game_id_2);
            lemma_id_eq(mod_id_1, mod_id_2);
            lemma_id_eq(file_id_1, file_id_2);
        },
        _ => {},
    }
}

#[verifier::spinoff_prover]
#[verifier::rlimit(60)]
proof fn lemma_skeleton_mute_user(r: Route)
    requires
        r is MuteUser,
    ensures
        skeleton(r.path_text()) == template(r),
{
    match r {
        Route::MuteUser { user_id } => {
            lemma_free_47();
            lemma_free_35();
            lemma_skeleton_seg1("/users/"@, user_id@, "/mute"@, Seq::<char>::empty());
            assert(seg1("/users/"@, user_id@ as nat, "/mute"@) + Seq::<char>::empty() =~= seg1("/users/"@, user_id@ as nat, "/mute"@));
            assert(tseg1("/users/"@, "/mute"@) + Seq::<char>::empty() =~= tseg1("/users/"@, "/mute"@));
        },
        _ => {},
    }
}

#[verifier::spinoff_prover]
#[verifier::rlimit(60)]
proof fn lemma_kind_mute_user(r: Route)
    requires
        r is MuteUser,
    ensures
        route_kind_of(r.method_of(), template(r)) == kind(r),
{
    reveal_strlit("/users/"); reveal_strlit("/mute");
}

#[verifier::spinoff_prover]
#[verifier::rlimit(60)]
proof fn lemma_same_mute_user(r1: Route, r2: Route)
    requires
        r1 is MuteUser,
        r2 is MuteUser,
        r1.path_text() == r2.path_text(),
    ensures
        r1 == r2,
{
    match (r1, r2) {
        (Route::MuteUser { user_id: user_id_1 }, Route::MuteUser { user_id: user_id_2 }) => {
            lemma_free_47();
            lemma_free_35();
            assert(seg1("/users/"@, user_id_1@ as nat, "/mute"@) + Seq::<char>::empty() =~= seg1("/users/"@, user_id_1@ as nat, "/mute"@));
            assert(seg1("/users/"@, user_id_2@ as nat, "/mute"@) + Seq::<char>::empty() =~= seg1("/users/"@, user_id_2@ as nat, "/mute"@));
            lemma_apart_concat("/mute"@, Seq::<char>::empty());
            lemma_apart_concat("/mute"@, Seq::<char>::empty());
            lemma_same_seg1("/users/"@, user_id_1@, user_id_2@, "/mute"@, Seq::<char>::empty(), Seq::<char>::empty());
            lemma_id_eq(user_id_1, user_id_2);
        },
        _ => {},
    }
}

#[verifier::spinoff_prover]
#[verifier::rlimit(60)]
proof fn lemma_skeleton_o_auth_email_request(r: Route)
    requires
        r is OAuthEmailRequest,
    ensures
        skeleton(r.path_text()) == template(r),
{
    match r {
        Route::OAuthEmailRequest => {
            lemma_free_37();
            lemma_skeleton_seg0("/oauth/emailrequest"@, Seq::<char>::empty());
            assert("/oauth/emailrequest"@ + Seq::<char>::empty() =~= "/oauth/emailrequest"@);
            assert("/oauth/emailrequest"@ + Seq::<char>::empty() =~= "/oauth/emailrequest"@);
        },
        _ => {},
    }
}

#[verifier::spinoff_prover]
#[verifier::rlimit(60)]
proof fn lemma_kind_o_auth_email_request(r: Route)
    requires
        r is OAuthEmailRequest,
    ensures
        route_kind_of(r.method_of(), template(r)) == kind(r),
{
    reveal_strlit("/oauth/emailrequest");
}

#[verifier::spinoff_prover]
#[verifier::rlimit(60)]
proof fn lemma_same_o_auth_email_request(r1: Route, r2: Route)
    requires
        r1 is OAuthEmailRequest,
        r2 is OAuthEmailRequest,
        r1.path_text() == r2.path_text(),
    ensures
        r1 == r2,
{
    assert(r1 is OAuthEmailRequest);
}

#[verifier::spinoff_prover]
#[verifier::rlimit(60)]
proof fn lemma_skeleton_o_auth_email_exchange(r: Route)
    requires
        r is OAuthEmailExchange,
    ensures
        skeleton(r.path_text()) == template(r),
{
    match r {
        Route::OAuthEmailExchange => {
            lemma_free_36();
            lemma_skeleton_seg0("/oauth/emailexchange"@, Seq::<char>::empty());
            assert("/oauth/emailexchange"@ + Seq::<char>::empty() =~= "/oauth/emailexchange"@);
            assert("/oauth/emailexchange"@ + Seq::<char>::empty() =~= "/oauth/emailexchange"@);
        },
        _ => {},
    }
}

#[verifier::spinoff_prover]
#[verifier::rlimit(60)]
proof fn lemma_kind_o_auth_email_exchange(r: Route)
    requires
        r is OAuthEmailExchange,
    ensures
        route_kind_of(r.method_of(), template(r)) == kind(r),
{
    reveal_strlit("/oauth/emailexchange");
}

#[verifier::spinoff_prover]
#[verifier::rlimit(60)]
proof fn lemma_same_o_auth_email_exchange(r1: Route, r2: Route)
    requires
        r1 is OAuthEmailExchange,
        r2 is OAuthEmailExchange,
        r1.path_text() == r2.path_text(),
    ensures
        r1 == r2,
{
    assert(r1 is OAuthEmailExchange);
}

#[verifier::spinoff_prover]
#[verifier::rlimit(60)]
proof fn lemma_skeleton_o_auth_logout(r: Route)
    requires
        r is OAuthLogout,
    ensures
        skeleton(r.path_text()) == template(r),
{
    match r {
        Route::OAuthLogout => {
            lemma_free_38();
            lemma_skeleton_seg0("/oauth/logout"@, Seq::<char>::empty());
            assert("/oauth/logout"@ + Seq::<char>::empty() =~= "/oauth/logout"@);
            assert("/oauth/logout"@ + Seq::<char>::empty() =~= "/oauth/logout"@);
        },
        _ => {},
    }
}

#[verifier::spinoff_prover]
#[verifier::rlimit(60)]
proof fn lemma_kind_o_auth_logout(r: Route)
    requires
        r is OAuthLogout,
    ensures
        route_kind_of(r.method_of(), template(r)) == kind(r),
{
    reveal_strlit("/oauth/logout");
}

#[verifier::spinoff_prover]
#[verifier::rlimit(60)]
proof fn lemma_same_o_auth_logout(r1: Route, r2: Route)
    requires
        r1 is OAuthLogout,
        r2 is OAuthLogout,
        r1.path_text() == r2.path_text(),
    ensures
        r1 == r2,
{
    assert(r1 is OAuthLogout);
}

#[verifier::spinoff_prover]
#[verifier::rlimit(60)]
proof fn lemma_skeleton_rate_mod(r: Route)
    requires
        r is RateMod,
    ensures
        skeleton(r.path_text()) == template(r),
{
    match r {
        Route::RateMod { game_id, mod_id } => {
            lemma_free_18();
            lemma_free_32();
            lemma_free_40();
            lemma_skeleton_seg2("/games/"@, game_id@, "/mods/"@, mod_id@, "/ratings"@, Seq::<char>::empty());
            assert(seg2("/games/"@, game_id@ as nat, "/mods/"@, mod_id@ as nat, "/ratings"@) + Seq::<char>::empty() =~= seg2("/games/"@, game_id@ as nat, "/mods/"@, mod_id@ as nat, "/ratings"@));
            assert(tseg2("/games/"@, "/mods/"@, "/ratings"@) + Seq::<char>::empty() =~= tseg2("/games/"@, "/mods/"@, "/ratings"@));
        },
        _ => {},
    }
}

#[verifier::spinoff_prover]
#[verifier::rlimit(60)]
proof fn lemma_kind_rate_mod(r: Route)
    requires
        r is RateMod,
    ensures
        route_kind_of(r.method_of(), template(r)) == kind(r),
{
    reveal_strlit("/games/"); reveal_strlit("/mods/"); reveal_strlit("/ratings");
}

#[verifier::spinoff_prover]
#[verifier::rlimit(60)]
proof fn lemma_same_rate_mod(r1: Route, r2: Route)
    requires
        r1 is RateMod,
        r2 is RateMod,
        r1.path_text() == r2.path_text(),
    ensures
        r1 == r2,
{
    match (r1, r2) {
        (Route::RateMod { game_id: game_id_1, mod_id: mod_id_1 }, Route::RateMod { game_id: game_id_2, mod_id: mod_id_2 }) => {
            lemma_free_18();
            lemma_free_32();
            lemma_free_40();
            assert(seg2("/games/"@, game_id_1@ as nat, "/mods/"@, mod_id_1@ as nat, "/ratings"@) + Seq::<char>::empty() =~= seg2("/games/"@, game_id_1@ as nat, "/mods/"@, mod_id_1@ as nat, "/ratings"@));
            assert(seg2("/games/"@, game_id_2@ as nat, "/mods/"@, mod_id_2@ as nat, "/ratings"@) + Seq::<char>::empty() =~= seg2("/games/"@, game_id_2@ as nat, "/mods/"@, mod_id_2@ as nat, "/ratings"@));
            lemma_apart_concat("/ratings"@, Seq::<char>::empty());
            lemma_apart_concat("/ratings"@, Seq::<char>::empty());
            lemma_same_seg2("/games/"@, game_id_1@, game_id_2@, "/mods/"@, mod_id_1@, mod_id_2@, "/ratings"@, Seq::<char>::empty(), Seq::<char>::empty());
            lemma_id_eq(game_id_1, game_id_2);
            lemma_id_eq(mod_id_1, mod_id_2);
        },
        _ => {},
    }
}

#[verifier::spinoff_prover]
#[verifier::rlimit(60)]
proof fn lemma_skeleton_rename_game_tags(r: Route)
    requires
        r is RenameGameTags,
    ensures
        skeleton(r.path_text()) == template(r),
{
    match r {
        Route::RenameGameTags { game_id } => {
            lemma_free_18();
            lemma_free_45();
            lemma_skeleton_seg1("/games/"@, game_id@, "/tags/rename"@, Seq::<char>::empty());
            assert(seg1("/games/"@, game_id@ as nat, "/tags/rename"@) + Seq::<char>::empty() =~= seg1("/games/"@, game_id@ as nat, "/tags/rename"@));
            assert(tseg1("/games/"@, "/tags/rename"@) + Seq::<char>::empty() =~= tseg1("/games/"@, "/tags/rename"@));
        },
        _ => {},
    }
}

#[verifier::spinoff_prover]
#[verifier::rlimit(60)]
proof fn lemma_kind_rename_game_tags(r: Route)
    requires
        r is RenameGameTags,
    ensures
        route_kind_of(r.method_of(), template(r)) == kind(r),
{
    reveal_strlit("/games/"); reveal_strlit("/tags/rename");
}

#[verifier::spinoff_prover]
#[verifier::rlimit(60)]
proof fn lemma_same_rename_game_tags(r1: Route, r2: Route)
    requires
        r1 is RenameGameTags,
        r2 is RenameGameTags,
        r1.path_text() == r2.path_text(),
    ensures
        r1 == r2,
{
    match (r1, r2) {
        (Route::RenameGameTags { game_id: game_id_1 }, Route::RenameGameTags { game_id: game_id_2 }) => {
            lemma_free_18();
            lemma_free_45();
            assert(seg1("/games/"@, game_id_1@ as nat, "/tags/rename"@) + Seq::<char>::empty() =~= seg1("/games/"@, game_id_1@ as nat, "/tags/rename"@));
            assert(seg1("/games/"@, game_id_2@ as nat, "/tags/rename"@) + Seq::<char>::empty() =~= seg1("/games/"@, game_id_2@ as nat, "/tags/rename"@));
            lemma_apart_concat("/tags/rename"@, Seq::<char>::empty());
            lemma_apart_concat("/tags/rename"@, Seq::<char>::empty());
            lemma_same_seg1("/games/"@, game_id_1@, game_id_2@, "/tags/rename"@, Seq::<char>::empty(), Seq::<char>::empty());
            lemma_id_eq(game_id_1, game_id_2);
        },
        _ => {},
    }
}

#[verifier::spinoff_prover]
#[verifier::rlimit(60)]
proof fn lemma_skeleton_reorder_mod_media(r: Route)
    requires
        r is ReorderModMedia,
    ensures
        skeleton(r.path_text()) == template(r),
{
    match r {
        Route::ReorderModMedia { game_id, mod_id } => {
            lemma_free_18();
            lemma_free_32();
            lemma_free_29();
            lemma_skeleton_seg2("/games/"@, game_id@, "/mods/"@, mod_id@, "/media/reorder"@, Seq::<char>::empty());
            assert(seg2("/games/"@, game_id@ as nat, "/mods/"@, mod_id@ as nat, "/media/reorder"@) + Seq::<char>::empty() =~= seg2("/games/"@, game_id@ as nat, "/mods/"@, mod_id@ as nat, "/media/reorder"@));
            assert(tseg2("/games/"@, "/mods/"@, "/media/reorder"@) + Seq::<char>::empty() =~= tseg2("/games/"@, "/mods/"@, "/media/reorder"@));
        },
        _ => {},
    }
}

#[verifier::spinoff_prover]
#[verifier::rlimit(60)]
proof fn lemma_kind_reorder_mod_media(r: Route)
    requires
        r is ReorderModMedia,
    ensures
        route_kind_of(r.method_of(), template(r)) == kind(r),
{
    reveal_strlit("/games/"); reveal_strlit("/mods/"); reveal_strlit("/media/reorder");
}

#[verifier::spinoff_prover]
#[verifier::rlimit(60)]
proof fn lemma_same_reorder_mod_media(r1: Route, r2: Route)
    requires
        r1 is ReorderModMedia,
        r2 is ReorderModMedia,
        r1.path_text() == r2.path_text(),
    ensures
        r1 == r2,
{
    match (r1, r2) {
        (Route::ReorderModMedia { game_id: game_id_1, mod_id: mod_id_1 }, Route::ReorderModMedia { game_id: game_id_2, mod_id: mod_id_2 }) => {
            lemma_free_18();
            lemma_free_32();
            lemma_free_29();
            assert(seg2("/games/"@, game_id_1@ as nat, "/mods/"@, mod_id_1@ as nat, "/media/reorder"@) + Seq::<char>::empty() =~= seg2("/games/"@, game_id_1@ as nat, "/mods/"@, mod_id_1@ as nat, "/media/reorder"@));
            assert(seg2("/games/"@, game_id_2@ as nat, "/mods/"@, mod_id_2@ as nat, "/media/reorder"@) + Seq::<char>::empty() =~= seg2("/games/"@, game_id_2@ as nat, "/mods/"@, mod_id_2@ as nat, "/media/reorder"@));
            lemma_apart_concat("/media/reorder"@, Seq::<char>::empty());
            lemma_apart_concat("/media/reorder"@, Seq::<char>::empty());
            lemma_same_seg2("/games/"@, game_id_1@, game_id_2@, "/mods/"@, mod_id_1@, mod_id_2@, "/media/reorder"@, Seq::<char>::empty(), Seq::<char>::empty());
            lemma_id_eq(game_id_1, game_id_2);
            lemma_id_eq(mod_id_1, mod_id_2);
        },
        _ => {},
    }
}

#[verifier::spinoff_prover]
#[verifier::rlimit(60)]
proof fn lemma_skeleton_submit_report(r: Route)
    requires
        r is SubmitReport,
    ensures
        skeleton(r.path_text()) == template(r),
{
    match r {
        Route::SubmitReport => {
            lemma_free_41();
            lemma_skeleton_seg0("/report"@, Seq::<char>::empty());
            assert("/report"@ + Seq::<char>::empty() =~= "/report"@);
            assert("/report"@ + Seq::<char>::empty() =~= "/report"@);
        },
        _ => {},
    }
}

#[verifier::spinoff_prover]
#[verifier::rlimit(60)]
proof fn lemma_kind_submit_report(r: Route)
    requires
        r is SubmitReport,
    ensures
        route_kind_of(r.method_of(), template(r)) == kind(r),
{
    reveal_strlit("/report");
}

#[verifier::spinoff_prover]
#[verifier::rlimit(60)]
proof fn lemma_same_submit_report(r1: Route, r2: Route)
    requires
        r1 is SubmitReport,
        r2 is SubmitReport,
        r1.path_text() == r2.path_text(),
    ensures
        r1 == r2,
{
    assert(r1 is SubmitReport);
}

#[verifier::spinoff_prover]
#[verifier::rlimit(60)]
proof fn lemma_skeleton_subscribe_to_mod(r: Route)
    requires
        r is SubscribeToMod,
    ensures
        skeleton(r.path_text()) == template(r),
{
    match r {
        Route::SubscribeToMod { game_id, mod_id } => {
            lemma_free_18();
            lemma_free_32();
            lemma_free_43();
            lemma_skeleton_seg2("/games/"@, game_id@, "/mods/"@, mod_id@, "/subscribe"@, Seq::<char>::empty());
            assert(seg2("/games/"@, game_id@ as nat, "/mods/"@, mod_id@ as nat, "/subscribe"@) + Seq::<char>::empty() =~= seg2("/games/"@, game_id@ as nat, "/mods/"@, mod_id@ as nat, "/subscribe"@));
            assert(tseg2("/games/"@, "/mods/"@, "/subscribe"@) + Seq::<char>::empty() =~= tseg2("/games/"@, "/mods/"@, "/subscribe"@));
        },
        _ => {},
    }
}

#[verifier::spinoff_prover]
#[verifier::rlimit(60)]
proof fn lemma_kind_subscribe_to_mod(r: Route)
    requires
        r is SubscribeToMod,
    ensures
        route_kind_of(r.method_of(), template(r)) == kind(r),
{
    reveal_strlit("/games/"); reveal_strlit("/mods/"); reveal_strlit("/subscribe");
}

#[verifier::spinoff_prover]
#[verifier::rlimit(60)]
proof fn lemma_same_subscribe_to_mod(r1: Route, r2: Route)
    requires
        r1 is SubscribeToMod,
        r2 is SubscribeToMod,
        r1.path_text() == r2.path_text(),
    ensures
        r1 == r2,
{
    match (r1, r2) {
        (Route::SubscribeToMod { game_id: game_id_1, mod_id: mod_id_1 }, Route::SubscribeToMod { game_id: game_id_2, mod_id: mod_id_2 }) => {
            lemma_free_18();
            lemma_free_32();
            lemma_free_43();
            assert(seg2("/games/"@, game_id_1@ as nat, "/mods/"@, mod_id_1@ as nat, "/subscribe"@) + Seq::<char>::empty() =~= seg2("/games/"@, game_id_1@ as nat, "/mods/"@, mod_id_1@ as nat, "/subscribe"@));
            assert(seg2("/games/"@, game_id_2@ as nat, "/mods/"@, mod_id_2@ as nat, "/subscribe"@) + Seq::<char>::empty() =~= seg2("/games/"@, game_id_2@ as nat, "/mods/"@, mod_id_2@ as nat, "/subscribe"@));
            lemma_apart_concat("/subscribe"@, Seq::<char>::empty());
            lemma_apart_concat("/subscribe"@, Seq::<char>::empty());
            lemma_same_seg2("/games/"@, game_id_1@, game_id_2@, "/mods/"@, mod_id_1@, mod_id_2@, "/subscribe"@, Seq::<char>::empty(), Seq::<char>::empty());
            lemma_id_eq(game_id_1, game_id_2);
            lemma_id_eq(mod_id_1, mod_id_2);
        },
        _ => {},
    }
}

#[verifier::spinoff_prover]
#[verifier::rlimit(60)]
proof fn lemma_skeleton_terms(r: Route)
    requires
        r is Terms,
    ensures
        skeleton(r.path_text()) == template(r),
{
    match r {
        Route::Terms => {
            lemma_free_1();
            lemma_skeleton_seg0("/authenticate/terms"@, Seq::<char>::empty());
            assert("/authenticate/terms"@ + Seq::<char>::empty() =~= "/authenticate/terms"@);
            assert("/authenticate/terms"@ + Seq::<char>::empty() =~= "/authenticate/terms"@);
        },
        _ => {},
    }
}

#[verifier::spinoff_prover]
#[verifier::rlimit(60)]
proof fn lemma_kind_terms(r: Route)
    requires
        r is Terms,
    ensures
        route_kind_of(r.method_of(), template(r)) == kind(r),
{
    reveal_strlit("/authenticate/terms");
}

#[verifier::spinoff_prover]
#[verifier::rlimit(60)]
proof fn lemma_same_terms(r1: Route, r2: Route)
    requires
        r1 is Terms,
        r2 is Terms,
        r1.path_text() == r2.path_text(),
    ensures
        r1 == r2,
{
    assert(r1 is Terms);
}

#[verifier::spinoff_prover]
#[verifier::rlimit(60)]
proof fn lemma_skeleton_unmute_user(r: Route)
    requires
        r is UnmuteUser,
    ensures
        skeleton(r.path_text()) == template(r),
{
    match r {
        Route::UnmuteUser { user_id } => {
            lemma_free_47();
            lemma_free_35();
            lemma_skeleton_seg1("/users/"@, user_id@, "/mute"@, Seq::<char>::empty());
            assert(seg1("/users/"@, user_id@ as nat, "/mute"@) + Seq::<char>::empty() =~= seg1("/users/"@, user_id@ as nat, "/mute"@));
            assert(tseg1("/users/"@, "/mute"@) + Seq::<char>::empty() =~= tseg1("/users/"@, "/mute"@));
        },
        _ => {},
    }
}

#[verifier::spinoff_prover]
#[verifier::rlimit(60)]
proof fn lemma_kind_unmute_user(r: Route)
    requires
        r is UnmuteUser,
    ensures
        route_kind_of(r.method_of(), template(r)) == kind(r),
{
    reveal_strlit("/users/"); reveal_strlit("/mute");
}

#[verifier::spinoff_prover]
#[verifier::rlimit(60)]
proof fn lemma_same_unmute_user(r1: Route, r2: Route)
    requires
        r1 is UnmuteUser,
        r2 is UnmuteUser,
        r1.path_text() == r2.path_text(),
    ensures
        r1 == r2,
{
    match (r1, r2) {
        (Route::UnmuteUser { user_id: user_id_1 }, Route::UnmuteUser { user_id: user_id_2 }) => {
            lemma_free_47();
            lemma_free_35();
            assert(seg1("/users/"@, user_id_1@ as nat, "/mute"@) + Seq::<char>::empty() =~= seg1("/users/"@, user_id_1@ as nat, "/mute"@));
            assert(seg1("/users/"@, user_id_2@ as nat, "/mute"@) + Seq::<char>::empty() =~= seg1("/users/"@, user_id_2@ as nat, "/mute"@));
            lemma_apart_concat("/mute"@, Seq::<char>::empty());
            lemma_apart_concat("/mute"@, Seq::<char>::empty());
            lemma_same_seg1("/users/"@, user_id_1@, user_id_2@, "/mute"@, Seq::<char>::empty(), Seq::<char>::empty());
            lemma_id_eq(user_id_1, user_id_2);
        },
        _ => {},
    }
}

#[verifier::spinoff_prover]
#[verifier::rlimit(60)]
proof fn lemma_skeleton_unsubscribe_from_mod(r: Route)
    requires
        r is UnsubscribeFromMod,
    ensures
        skeleton(r.path_text()) == template(r),
{
    match r {
        Route::UnsubscribeFromMod { game_id, mod_id } => {
            lemma_free_18();
            lemma_free_32();
            lemma_free_43();
            lemma_skeleton_seg2("/games/"@, game_id@, "/mods/"@, mod_id@, "/subscribe"@, Seq::<char>::empty());
            assert(seg2("/games/"@, game_id@ as nat, "/mods/"@, mod_id@ as nat, "/subscribe"@) + Seq::<char>::empty() =~= seg2("/games/"@, game_id@ as nat, "/mods/"@, mod_id@ as nat, "/subscribe"@));
            assert(tseg2("/games/"@, "/mods/"@, "/subscribe"@) + Seq::<char>::empty() =~= tseg2("/games/"@, "/mods/"@, "/subscribe"@));
        },
        _ => {},
    }
}

#[verifier::spinoff_prover]
#[verifier::rlimit(60)]
proof fn lemma_kind_unsubscribe_from_mod(r: Route)
    requires
        r is UnsubscribeFromMod,
    ensures
        route_kind_of(r.method_of(), template(r)) == kind(r),
{
    reveal_strlit("/games/"); reveal_strlit("/mods/"); reveal_strlit("/subscribe");
}

#[verifier::spinoff_prover]
#[verifier::rlimit(60)]
proof fn lemma_same_unsubscribe_from_mod(r1: Route, r2: Route)
    requires
        r1 is UnsubscribeFromMod,
        r2 is UnsubscribeFromMod,
        r1.path_text() == r2.path_text(),
    ensures
        r1 == r2,
{
    match (r1, r2) {
        (Route::UnsubscribeFromMod { game_id: game_id_1, mod_id: mod_id_1 }, Route::UnsubscribeFromMod { game_id: game_id_2, mod_id: mod_id_2 }) => {
            lemma_free_18();
            lemma_free_32();
            lemma_free_43();
            assert(seg2("/games/"@, game_id_1@ as nat, "/mods/"@, mod_id_1@ as nat, "/subscribe"@) + Seq::<char>::empty() =~= seg2("/games/"@, game_id_1@ as nat, "/mods/"@, mod_id_1@ as nat, "/subscribe"@));
            assert(seg2("/games/"@, game_id_2@ as nat, "/mods/"@, mod_id_2@ as nat, "/subscribe"@) + Seq::<char>::empty() =~= seg2("/games/"@, game_id_2@ as nat, "/mods/"@, mod_id_2@ as nat, "/subscribe"@));
            lemma_apart_concat("/subscribe"@, Seq::<char>::empty());
            lemma_apart_concat("/subscribe"@, Seq::<char>::empty());
            lemma_same_seg2("/games/"@, game_id_1@, game_id_2@, "/mods/"@, mod_id_1@, mod_id_2@, "/subscribe"@, Seq::<char>::empty(), Seq::<char>::empty());
            lemma_id_eq(game_id_1, game_id_2);
            lemma_id_eq(mod_id_1, mod_id_2);
        },
        _ => {},
    }
}

#[verifier::spinoff_prover]
#[verifier::rlimit(60)]
proof fn lemma_skeleton_update_mod_comment_karma(r: Route)
    requires
        r is UpdateModCommentKarma,
    ensures
        skeleton(r.path_text()) == template(r),
{
    match r {
        Route::UpdateModCommentKarma { game_id, mod_id, comment_id } => {
            lemma_free_18();
            lemma_free_32();
            lemma_free_3();
            lemma_free_19();
            lemma_skeleton_seg3("/games/"@, game_id@, "/mods/"@, mod_id@, "/comments/"@, comment_id@, "/karma"@, Seq::<char>::empty());
            assert(seg3("/games/"@, game_id@ as nat, "/mods/"@, mod_id@ as nat, "/comments/"@, comment_id@ as nat, "/karma"@) + Seq::<char>::empty() =~= seg3("/games/"@, game_id@ as nat, "/mods/"@, mod_id@ as nat, "/comments/"@, comment_id@ as nat, "/karma"@));
            assert(tseg3("/games/"@, "/mods/"@, "/comments/"@, "/karma"@) + Seq::<char>::empty() =~= tseg3("/games/"@, "/mods/"@, "/comments/"@, "/karma"@));
        },
        _ => {},
    }
}

#[verifier::spinoff_prover]
#[verifier::rlimit(60)]
proof fn lemma_kind_update_mod_comment_karma(r: Route)
    requires
        r is UpdateModCommentKarma,
    ensures
        route_kind_of(r.method_of(), template(r)) == kind(r),
{
    reveal_strlit("/games/"); reveal_strlit("/mods/"); reveal_strlit("/comments/"); reveal_strlit("/karma");
}

#[verifier::spinoff_prover]
#[verifier::rlimit(60)]
proof fn lemma_same_update_mod_comment_karma(r1: Route, r2: Route)
    requires
        r1 is UpdateModCommentKarma,
        r2 is UpdateModCommentKarma,
        r1.path_text() == r2.path_text(),
    ensures
        r1 == r2,
{
    match (r1, r2) {
        (Route::UpdateModCommentKarma { game_id: game_id_1, mod_id: mod_id_1, comment_id: comment_id_1 }, Route::UpdateModCommentKarma { game_id: game_id_2, mod_id: mod_id_2, comment_id: comment_id_2 }) => {
            lemma_free_18();
            lemma_free_32();
            lemma_free_3();
            lemma_free_19();
            assert(seg3("/games/"@, game_id_1@ as nat, "/mods/"@, mod_id_1@ as nat, "/comments/"@, comment_id_1@ as nat, "/karma"@) + Seq::<char>::empty() =~= seg3("/games/"@, game_id_1@ as nat, "/mods/"@, mod_id_1@ as nat, "/comments/"@, comment_id_1@ as nat, "/karma"@));
            assert(seg3("/games/"@, game_id_2@ as nat, "/mods/"@, mod_id_2@ as nat, "/comments/"@, comment_id_2@ as nat, "/karma"@) + Seq::<char>::empty() =~= seg3("/games/"@, game_id_2@ as nat, "/mods/"@, mod_id_2@ as nat, "/comments/"@, comment_id_2@ as nat, "/karma"@));
            lemma_same_seg3("/games/"@, game_id_1@, game_id_2@, "/mods/"@, mod_id_1@, mod_id_2@, "/comments/"@, comment_id_1@, comment_id_2@, "/karma"@, Seq::<char>::empty(), Seq::<char>::empty());
            lemma_id_eq(game_id_1, game_id_2);
            lemma_id_eq(mod_id_1, mod_id_2);
            lemma_id_eq(comment_id_1, comment_id_2);
        },
        _ => {},
    }
}

#[verifier::spinoff_prover]
#[verifier::rlimit(60)]
proof fn lemma_skeleton_user_authenticated(r: Route)
    requires
        r is UserAuthenticated,
    ensures
        skeleton(r.path_text()) == template(r),
{
    match r {
        Route::UserAuthenticated => {
            lemma_free_20();
            lemma_skeleton_seg0("/me"@, Seq::<char>::empty());
            assert("/me"@ + Seq::<char>::empty() =~= "/me"@);
            assert("/me"@ + Seq::<char>::empty() =~= "/me"@);
        },
        _ => {},
    }
}

#[verifier::spinoff_prover]
#[verifier::rlimit(60)]
proof fn lemma_kind_user_authenticated(r: Route)
    requires
        r is UserAuthenticated,
    ensures
        route_kind_of(r.method_of(), template(r)) == kind(r),
{
    reveal_strlit("/me");
}

#[verifier::spinoff_prover]
#[verifier::rlimit(60)]
proof fn lemma_same_user_authenticated(r1: Route, r2: Route)
    requires
        r1 is UserAuthenticated,
        r2 is UserAuthenticated,
        r1.path_text() == r2.path_text(),
    ensures
        r1 == r2,
{
    assert(r1 is UserAuthenticated);
}

#[verifier::spinoff_prover]
#[verifier::rlimit(60)]
proof fn lemma_skeleton_user_events(r: Route)
    requires
        r is UserEvents,
    ensures
        skeleton(r.path_text()) == template(r),
{
    match r {
        Route::UserEvents => {
            lemma_free_21();
            lemma_skeleton_seg0("/me/events"@, Seq::<char>::empty());
            assert("/me/events"@ + Seq::<char>::empty() =~= "/me/events"@);
            assert("/me/events"@ + Seq::<char>::empty() =~= "/me/events"@);
        },
        _ => {},
    }
}

#[verifier::spinoff_prover]
#[verifier::rlimit(60)]
proof fn lemma_kind_user_events(r: Route)
    requires
        r is UserEvents,
    ensures
        route_kind_of(r.method_of(), template(r)) == kind(r),
{
    reveal_strlit("/me/events");
}

#[verifier::spinoff_prover]
#[verifier::rlimit(60)]
proof fn lemma_same_user_events(r1: Route, r2: Route)
    requires
        r1 is UserEvents,
        r2 is UserEvents,
        r1.path_text() == r2.path_text(),
    ensures
        r1 == r2,
{
    assert(r1 is UserEvents);
}

#[verifier::spinoff_prover]
#[verifier::rlimit(60)]
proof fn lemma_skeleton_user_files(r: Route)
    requires
        r is UserFiles,
    ensures
        skeleton(r.path_text()) == template(r),
{
    match r {
        Route::UserFiles => {
            lemma_free_22();
            lemma_skeleton_seg0("/me/files"@, Seq::<char>::empty());
            assert("/me/files"@ + Seq::<char>::empty() =~= "/me/files"@);
            assert("/me/files"@ + Seq::<char>::empty() =~= "/me/files"@);
        },
        _ => {},
    }
}

#[verifier::spinoff_prover]
#[verifier::rlimit(60)]
proof fn lemma_kind_user_files(r: Route)
    requires
        r is UserFiles,
    ensures
        route_kind_of(r.method_of(), template(r)) == kind(r),
{
    reveal_strlit("/me/files");
}

#[verifier::spinoff_prover]
#[verifier::rlimit(60)]
proof fn lemma_same_user_files(r1: Route, r2: Route)
    requires
        r1 is UserFiles,
        r2 is UserFiles,
        r1.path_text() == r2.path_text(),
    ensures
        r1 == r2,
{
    assert(r1 is UserFiles);
}

#[verifier::spinoff_prover]
#[verifier::rlimit(60)]
proof fn lemma_skeleton_user_games(r: Route)
    requires
        r is UserGames,
    ensures
        skeleton(r.path_text()) == template(r),
{
    match r {
        Route::UserGames => {
            lemma_free_23();
            lemma_skeleton_seg0("/me/games"@, Seq::<char>::empty());
            assert("/me/games"@ + Seq::<char>::empty() =~= "/me/games"@);
            assert("/me/games"@ + Seq::<char>::empty() =~= "/me/games"@);
        },
        _ => {},
    }
}

#[verifier::spinoff_prover]
#[verifier::rlimit(60)]
proof fn lemma_kind_user_games(r: Route)
    requires
        r is UserGames,
    ensures
        route_kind_of(r.method_of(), template(r)) == kind(r),
{
    reveal_strlit("/me/games");
}

#[verifier::spinoff_prover]
#[verifier::rlimit(60)]
proof fn lemma_same_user_games(r1: Route, r2: Route)
    requires
        r1 is UserGames,
        r2 is UserGames,
        r1.path_text() == r2.path_text(),
    ensures
        r1 == r2,
{
    assert(r1 is UserGames);
}

#[verifier::spinoff_prover]
#[verifier::rlimit(60)]
proof fn lemma_skeleton_user_mods(r: Route)
    requires
        r is UserMods,
    ensures
        skeleton(r.path_text()) == template(r),
{
    match r {
        Route::UserMods => {
            lemma_free_24();
            lemma_skeleton_seg0("/me/mods"@, Seq::<char>::empty());
            assert("/me/mods"@ + Seq::<char>::empty() =~= "/me/mods"@);
            assert("/me/mods"@ + Seq::<char>::empty() =~= "/me/mods"@);
        },
        _ => {},
    }
}

#[verifier::spinoff_prover]
#[verifier::rlimit(60)]
proof fn lemma_kind_user_mods(r: Route)
    requires
        r is UserMods,
    ensures
        route_kind_of(r.method_of(), template(r)) == kind(r),
{
    reveal_strlit("/me/mods");
}

#[verifier::spinoff_prover]
#[verifier::rlimit(60)]
proof fn lemma_same_user_mods(r1: Route, r2: Route)
    requires
        r1 is UserMods,
        r2 is UserMods,
        r1.path_text() == r2.path_text(),
    ensures
        r1 == r2,
{
    assert(r1 is UserMods);
}

#[verifier::spinoff_prover]
#[verifier::rlimit(60)]
proof fn lemma_skeleton_user_muted(r: Route)
    requires
        r is UserMuted,
    ensures
        skeleton(r.path_text()) == template(r),
{
    match r {
        Route::UserMuted => {
            lemma_free_27();
            lemma_skeleton_seg0("/me/users/muted"@, Seq::<char>::empty());
            assert("/me/users/muted"@ + Seq::<char>::empty() =~= "/me/users/muted"@);
            assert("/me/users/muted"@ + Seq::<char>::empty() =~= "/me/users/muted"@);
        },
        _ => {},
    }
}

#[verifier::spinoff_prover]
#[verifier::rlimit(60)]
proof fn lemma_kind_user_muted(r: Route)
    requires
        r is UserMuted,
    ensures
        route_kind_of(r.method_of(), template(r)) == kind(r),
{
    reveal_strlit("/me/users/muted");
}

#[verifier::spinoff_prover]
#[verifier::rlimit(60)]
proof fn lemma_same_user_muted(r1: Route, r2: Route)
    requires
        r1 is UserMuted,
        r2 is UserMuted,
        r1.path_text() == r2.path_text(),
    ensures
        r1 == r2,
{
    assert(r1 is UserMuted);
}

#[verifier::spinoff_prover]
#[verifier::rlimit(60)]
proof fn lemma_skeleton_user_ratings(r: Route)
    requires
        r is UserRatings,
    ensures
        skeleton(r.path_text()) == template(r),
{
    match r {
        Route::UserRatings => {
            lemma_free_25();
            lemma_skeleton_seg0("/me/ratings"@, Seq::<char>::empty());
            assert("/me/ratings"@ + Seq::<char>::empty() =~= "/me/ratings"@);
            assert("/me/ratings"@ + Seq::<char>::empty() =~= "/me/ratings"@);
        },
        _ => {},
    }
}

#[verifier::spinoff_prover]
#[verifier::rlimit(60)]
proof fn lemma_kind_user_ratings(r: Route)
    requires
        r is UserRatings,
    ensures
        route_kind_of(r.method_of(), template(r)) == kind(r),
{
    reveal_strlit("/me/ratings");
}

#[verifier::spinoff_prover]
#[verifier::rlimit(60)]
proof fn lemma_same_user_ratings(r1: Route, r2: Route)
    requires
        r1 is UserRatings,
        r2 is UserRatings,
        r1.path_text() == r2.path_text(),
    ensures
        r1 == r2,
{
    assert(r1 is UserRatings);
}

#[verifier::spinoff_prover]
#[verifier::rlimit(60)]
proof fn lemma_skeleton_user_subscriptions(r: Route)
    requires
        r is UserSubscriptions,
    ensures
        skeleton(r.path_text()) == template(r),
{
    match r {
        Route::UserSubscriptions => {
            lemma_free_26();
            lemma_skeleton_seg0("/me/subscribed"@, Seq::<char>::empty());
            assert("/me/subscribed"@ + Seq::<char>::empty() =~= "/me/subscribed"@);
            assert("/me/subscribed"@ + Seq::<char>::empty() =~= "/me/subscribed"@);
        },
        _ => {},
    }
}

#[verifier::spinoff_prover]
#[verifier::rlimit(60)]
proof fn lemma_kind_user_subscriptions(r: Route)
    requires
        r is UserSubscriptions,
    ensures
        route_kind_of(r.method_of(), template(r)) == kind(r),
{
    reveal_strlit("/me/subscribed");
}

#[verifier::spinoff_prover]
#[verifier::rlimit(60)]
proof fn lemma_same_user_subscriptions(r1: Route, r2: Route)
    requires
        r1 is UserSubscriptions,
        r2 is UserSubscriptions,
        r1.path_text() == r2.path_text(),
    ensures
        r1 == r2,
{
    assert(r1 is UserSubscriptions);
}

} // verus!
