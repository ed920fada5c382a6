//! Laws of route paths: what characters they are made of, when they carry a
//! query, and that they name every ID of their route.
use vstd::prelude::*;

use crate::request::routing::Route;
use crate::text::{bool_text, decimal, digit_char, query_flag, seg1, seg2, seg3};

verus! {

/// The characters route paths are made of: ASCII letters and digits and
/// `/-._~=?`.
pub open spec fn is_path_char(c: char) -> bool {
    ||| 'a' <= c <= 'z'
    ||| 'A' <= c <= 'Z'
    ||| '0' <= c <= '9'
    ||| c == '/'
    ||| c == '-'
    ||| c == '.'
    ||| c == '_'
    ||| c == '~'
    ||| c == '='
    ||| c == '?'
}

/// Every character of `s` is a path character.
pub open spec fn all_path_chars(s: Seq<char>) -> bool
    decreases s.len(),
{
    s.len() == 0 || (is_path_char(s.last()) && all_path_chars(s.drop_last()))
}

/// `s` holds no `?`.
pub open spec fn no_query_mark(s: Seq<char>) -> bool
    decreases s.len(),
{
    s.len() == 0 || (s.last() != '?' && no_query_mark(s.drop_last()))
}

/// `t` stands in `s` from index `i` on.
pub open spec fn occurs_at(s: Seq<char>, t: Seq<char>, i: int) -> bool {
    0 <= i && i + t.len() <= s.len() && s.subrange(i, i + t.len()) == t
}

/// `t` stands somewhere in `s`.
pub open spec fn contains(s: Seq<char>, t: Seq<char>) -> bool {
    exists|i: int| #[trigger] occurs_at(s, t, i)
}

/// Ten to the power `k`.
pub open spec fn pow10(k: nat) -> nat
    decreases k,
{
    if k == 0 {
        1
    } else {
        10 * pow10((k - 1) as nat)
    }
}

proof fn lemma_concat(a: Seq<char>, b: Seq<char>)
    ensures
        all_path_chars(a + b) == (all_path_chars(a) && all_path_chars(b)),
        no_query_mark(a + b) == (no_query_mark(a) && no_query_mark(b)),
    decreases b.len(),
{
    if b.len() == 0 {
        assert(a + b =~= a);
    } else {
        assert((a + b).drop_last() =~= a + b.drop_last());
        assert((a + b).last() == b.last());
        lemma_concat(a, b.drop_last());
    }
}

proof fn lemma_contains_prefix(s: Seq<char>, t: Seq<char>, u: Seq<char>)
    requires
        contains(s, u),
    ensures
        contains(s + t, u),
{
    let i = choose|i: int| #[trigger] occurs_at(s, u, i);
    assert((s + t).subrange(i, i + u.len()) =~= s.subrange(i, i + u.len()));
    assert(occurs_at(s + t, u, i));
}

proof fn lemma_decimal_chars(n: nat)
    ensures
        all_path_chars(decimal(n)),
        no_query_mark(decimal(n)),
    decreases n,
{
    let d = digit_char(n % 10);
    assert(is_path_char(d) && d != '?');
    reveal_with_fuel(all_path_chars, 2);
    reveal_with_fuel(no_query_mark, 2);
    if n >= 10 {
        lemma_decimal_chars(n / 10);
        assert(decimal(n).drop_last() =~= decimal(n / 10));
        assert(decimal(n).last() == d);
    } else {
        assert(decimal(n).drop_last() =~= Seq::<char>::empty());
        assert(decimal(n).last() == d);
    }
}

proof fn lemma_decimal_len(n: nat, k: nat)
    requires
        k >= 1,
        n < pow10(k),
    ensures
        decimal(n).len() <= k,
    decreases k,
{
    if n >= 10 {
        assert(k >= 2) by {
            if k == 1 {
                assert(pow10(1) == 10) by {
                    reveal_with_fuel(pow10, 2);
                }
            }
        }
        assert(n / 10 < pow10((k - 1) as nat));
        lemma_decimal_len(n / 10, (k - 1) as nat);
    }
}

proof fn lemma_decimal_u64(n: u64)
    ensures
        decimal(n as nat).len() <= 20,
        all_path_chars(decimal(n as nat)),
        no_query_mark(decimal(n as nat)),
{
    assert(pow10(20) == 100000000000000000000) by {
        reveal_with_fuel(pow10, 21);
    }
    lemma_decimal_len(n as nat, 20);
    lemma_decimal_chars(n as nat);
}

proof fn lemma_seg1(a: Seq<char>, x: u64, b: Seq<char>)
    ensures
        all_path_chars(seg1(a, x as nat, b)) == (all_path_chars(a) && all_path_chars(b)),
        no_query_mark(seg1(a, x as nat, b)) == (no_query_mark(a) && no_query_mark(b)),
        contains(seg1(a, x as nat, b), decimal(x as nat)),
        seg1(a, x as nat, b).len() <= a.len() + 20 + b.len(),
{
    let d = decimal(x as nat);
    lemma_decimal_u64(x);
    lemma_concat(a, d);
    lemma_concat(a + d, b);
    assert((a + d + b).subrange(a.len() as int, (a.len() + d.len()) as int) =~= d);
    assert(occurs_at(seg1(a, x as nat, b), d, a.len() as int));
}

proof fn lemma_seg2(a: Seq<char>, x: u64, b: Seq<char>, y: u64, c: Seq<char>)
    ensures
        all_path_chars(seg2(a, x as nat, b, y as nat, c)) == (all_path_chars(a) && all_path_chars(
            b,
        ) && all_path_chars(c)),
        no_query_mark(seg2(a, x as nat, b, y as nat, c)) == (no_query_mark(a) && no_query_mark(b)
            && no_query_mark(c)),
        contains(seg2(a, x as nat, b, y as nat, c), decimal(x as nat)),
        contains(seg2(a, x as nat, b, y as nat, c), decimal(y as nat)),
        seg2(a, x as nat, b, y as nat, c).len() <= a.len() + b.len() + c.len() + 40,
{
    let s = seg1(a, x as nat, b);
    let d = decimal(y as nat);
    lemma_seg1(a, x, b);
    lemma_seg1(s, y, c);
    lemma_contains_prefix(s, d + c, decimal(x as nat));
    assert(s + d + c =~= s + (d + c));
}

proof fn lemma_seg3(
    a: Seq<char>,
    x: u64,
    b: Seq<char>,
    y: u64,
    c: Seq<char>,
    z: u64,
    d: Seq<char>,
)
    ensures
        all_path_chars(seg3(a, x as nat, b, y as nat, c, z as nat, d)) == (all_path_chars(a)
            && all_path_chars(b) && all_path_chars(c) && all_path_chars(d)),
        no_query_mark(seg3(a, x as nat, b, y as nat, c, z as nat, d)) == (no_query_mark(a)
            && no_query_mark(b) && no_query_mark(c) && no_query_mark(d)),
        contains(seg3(a, x as nat, b, y as nat, c, z as nat, d), decimal(x as nat)),
        contains(seg3(a, x as nat, b, y as nat, c, z as nat, d), decimal(y as nat)),
        contains(seg3(a, x as nat, b, y as nat, c, z as nat, d), decimal(z as nat)),
        seg3(a, x as nat, b, y as nat, c, z as nat, d).len() <= a.len() + b.len() + c.len()
            + d.len() + 60,
{
    let s = seg2(a, x as nat, b, y as nat, c);
    let e = decimal(z as nat);
    lemma_seg2(a, x, b, y, c);
    lemma_seg1(s, z, d);
    lemma_contains_prefix(s, e + d, decimal(x as nat));
    lemma_contains_prefix(s, e + d, decimal(y as nat));
    assert(s + e + d =~= s + (e + d));
}

proof fn lemma_bool_text(b: bool)
    ensures
        all_path_chars(bool_text(b)),
        no_query_mark(bool_text(b)),
        bool_text(b).len() <= 5,
{
    reveal_with_fuel(all_path_chars, 6);
    reveal_with_fuel(no_query_mark, 6);
}

/// A base path followed by a flag's query: the query adds a `?` exactly when
/// the flag is set.
proof fn lemma_query(base: Seq<char>, key: Seq<char>, flag: Option<bool>)
    requires
        key.len() > 0,
        key[0] == '?',
        all_path_chars(key),
    ensures
        all_path_chars(base + query_flag(key, flag)) == all_path_chars(base),
        no_query_mark(base + query_flag(key, flag)) == (no_query_mark(base) && flag is None),
        forall|t: Seq<char>| contains(base, t) ==> contains(base + query_flag(key, flag), t),
        (base + query_flag(key, flag)).len() <= base.len() + key.len() + 5,
{
    let q = query_flag(key, flag);
    lemma_concat(base, q);
    match flag {
        Some(b) => {
            lemma_bool_text(b);
            lemma_concat(key, bool_text(b));
            lemma_no_mark_first(key);
        },
        None => {
            assert(q =~= Seq::<char>::empty());
            reveal_with_fuel(all_path_chars, 1);
            reveal_with_fuel(no_query_mark, 1);
        },
    }
    assert forall|t: Seq<char>| contains(base, t) implies contains(base + q, t) by {
        lemma_contains_prefix(base, q, t);
    }
}

proof fn lemma_no_mark_first(s: Seq<char>)
    requires
        s.len() > 0,
        s[0] == '?',
    ensures
        !no_query_mark(s),
    decreases s.len(),
{
    if s.len() > 1 {
        assert(s.drop_last()[0] == '?');
        lemma_no_mark_first(s.drop_last());
    }
}

#[verifier::spinoff_prover]
#[verifier::rlimit(60)]
proof fn lemma_text_0()
    ensures
        all_path_chars(""@),
        ""@.len() == 0,
        no_query_mark(""@),
{
    reveal_strlit("");
    reveal_with_fuel(all_path_chars, 1);
    reveal_with_fuel(no_query_mark, 1);
}
#[verifier::spinoff_prover]
#[verifier::rlimit(60)]
proof fn lemma_text_1()
    ensures
        all_path_chars("/authenticate/terms"@),
        "/authenticate/terms"@.len() == 19,
        no_query_mark("/authenticate/terms"@),
{
    reveal_strlit("/authenticate/terms");
    reveal_with_fuel(all_path_chars, 20);
    reveal_with_fuel(no_query_mark, 20);
}
#[verifier::spinoff_prover]
#[verifier::rlimit(60)]
proof fn lemma_text_2()
    ensures
        all_path_chars("/comments"@),
        "/comments"@.len() == 9,
        no_query_mark("/comments"@),
{
    reveal_strlit("/comments");
    reveal_with_fuel(all_path_chars, 10);
    reveal_with_fuel(no_query_mark, 10);
}
#[verifier::spinoff_prover]
#[verifier::rlimit(60)]
proof fn lemma_text_3()
    ensures
        all_path_chars("/comments/"@),
        "/comments/"@.len() == 10,
        no_query_mark("/comments/"@),
{
    reveal_strlit("/comments/");
    reveal_with_fuel(all_path_chars, 11);
    reveal_with_fuel(no_query_mark, 11);
}
#[verifier::spinoff_prover]
#[verifier::rlimit(60)]
proof fn lemma_text_4()
    ensures
        all_path_chars("/dependencies"@),
        "/dependencies"@.len() == 13,
        no_query_mark("/dependencies"@),
{
    reveal_strlit("/dependencies");
    reveal_with_fuel(all_path_chars, 14);
    reveal_with_fuel(no_query_mark, 14);
}
#[verifier::spinoff_prover]
#[verifier::rlimit(60)]
proof fn lemma_text_5()
    ensures
        all_path_chars("/events"@),
        "/events"@.len() == 7,
        no_query_mark("/events"@),
{
    reveal_strlit("/events");
    reveal_with_fuel(all_path_chars, 8);
    reveal_with_fuel(no_query_mark, 8);
}
#[verifier::spinoff_prover]
#[verifier::rlimit(60)]
proof fn lemma_text_6()
    ensures
        all_path_chars("/external/discordauth"@),
        "/external/discordauth"@.len() == 21,
        no_query_mark("/external/discordauth"@),
{
    reveal_strlit("/external/discordauth");
    reveal_with_fuel(all_path_chars, 22);
    reveal_with_fuel(no_query_mark, 22);
}
#[verifier::spinoff_prover]
#[verifier::rlimit(60)]
proof fn lemma_text_7()
    ensures
        all_path_chars("/external/epicgamesauth"@),
        "/external/epicgamesauth"@.len() == 23,
        no_query_mark("/external/epicgamesauth"@),
{
    reveal_strlit("/external/epicgamesauth");
    reveal_with_fuel(all_path_chars, 24);
    reveal_with_fuel(no_query_mark, 24);
}
#[verifier::spinoff_prover]
#[verifier::rlimit(60)]
proof fn lemma_text_8()
    ensures
        all_path_chars("/external/googleauth"@),
        "/external/googleauth"@.len() == 20,
        no_query_mark("/external/googleauth"@),
{
    reveal_strlit("/external/googleauth");
    reveal_with_fuel(all_path_chars, 21);
    reveal_with_fuel(no_query_mark, 21);
}
#[verifier::spinoff_prover]
#[verifier::rlimit(60)]
proof fn lemma_text_9()
    ensures
        all_path_chars("/external/oculusauth"@),
        "/external/oculusauth"@.len() == 20,
        no_query_mark("/external/oculusauth"@),
{
    reveal_strlit("/external/oculusauth");
    reveal_with_fuel(all_path_chars, 21);
    reveal_with_fuel(no_query_mark, 21);
}
#[verifier::spinoff_prover]
#[verifier::rlimit(60)]
proof fn lemma_text_10()
    ensures
        all_path_chars("/external/openidauth"@),
        "/external/openidauth"@.len() == 20,
        no_query_mark("/external/openidauth"@),
{
    reveal_strlit("/external/openidauth");
    reveal_with_fuel(all_path_chars, 21);
    reveal_with_fuel(no_query_mark, 21);
}
#[verifier::spinoff_prover]
#[verifier::rlimit(60)]
proof fn lemma_text_11()
    ensures
        all_path_chars("/external/psnauth"@),
        "/external/psnauth"@.len() == 17,
        no_query_mark("/external/psnauth"@),
{
    reveal_strlit("/external/psnauth");
    reveal_with_fuel(all_path_chars, 18);
    reveal_with_fuel(no_query_mark, 18);
}
#[verifier::spinoff_prover]
#[verifier::rlimit(60)]
proof fn lemma_text_12()
    ensures
        all_path_chars("/external/steamauth"@),
        "/external/steamauth"@.len() == 19,
        no_query_mark("/external/steamauth"@),
{
    reveal_strlit("/external/steamauth");
    reveal_with_fuel(all_path_chars, 20);
    reveal_with_fuel(no_query_mark, 20);
}
#[verifier::spinoff_prover]
#[verifier::rlimit(60)]
proof fn lemma_text_13()
    ensures
        all_path_chars("/external/switchauth"@),
        "/external/switchauth"@.len() == 20,
        no_query_mark("/external/switchauth"@),
{
    reveal_strlit("/external/switchauth");
    reveal_with_fuel(all_path_chars, 21);
    reveal_with_fuel(no_query_mark, 21);
}
#[verifier::spinoff_prover]
#[verifier::rlimit(60)]
proof fn lemma_text_14()
    ensures
        all_path_chars("/external/xboxauth"@),
        "/external/xboxauth"@.len() == 18,
        no_query_mark("/external/xboxauth"@),
{
    reveal_strlit("/external/xboxauth");
    reveal_with_fuel(all_path_chars, 19);
    reveal_with_fuel(no_query_mark, 19);
}
#[verifier::spinoff_prover]
#[verifier::rlimit(60)]
proof fn lemma_text_15()
    ensures
        all_path_chars("/files"@),
        "/files"@.len() == 6,
        no_query_mark("/files"@),
{
    reveal_strlit("/files");
    reveal_with_fuel(all_path_chars, 7);
    reveal_with_fuel(no_query_mark, 7);
}
#[verifier::spinoff_prover]
#[verifier::rlimit(60)]
proof fn lemma_text_16()
    ensures
        all_path_chars("/files/"@),
        "/files/"@.len() == 7,
        no_query_mark("/files/"@),
{
    reveal_strlit("/files/");
    reveal_with_fuel(all_path_chars, 8);
    reveal_with_fuel(no_query_mark, 8);
}
#[verifier::spinoff_prover]
#[verifier::rlimit(60)]
proof fn lemma_text_17()
    ensures
        all_path_chars("/games"@),
        "/games"@.len() == 6,
        no_query_mark("/games"@),
{
    reveal_strlit("/games");
    reveal_with_fuel(all_path_chars, 7);
    reveal_with_fuel(no_query_mark, 7);
}
#[verifier::spinoff_prover]
#[verifier::rlimit(60)]
proof fn lemma_text_18()
    ensures
        all_path_chars("/games/"@),
        "/games/"@.len() == 7,
        no_query_mark("/games/"@),
{
    reveal_strlit("/games/");
    reveal_with_fuel(all_path_chars, 8);
    reveal_with_fuel(no_query_mark, 8);
}
#[verifier::spinoff_prover]
#[verifier::rlimit(60)]
proof fn lemma_text_19()
    ensures
        all_path_chars("/karma"@),
        "/karma"@.len() == 6,
        no_query_mark("/karma"@),
{
    reveal_strlit("/karma");
    reveal_with_fuel(all_path_chars, 7);
    reveal_with_fuel(no_query_mark, 7);
}
#[verifier::spinoff_prover]
#[verifier::rlimit(60)]
proof fn lemma_text_20()
    ensures
        all_path_chars("/me"@),
        "/me"@.len() == 3,
        no_query_mark("/me"@),
{
    reveal_strlit("/me");
    reveal_with_fuel(all_path_chars, 4);
    reveal_with_fuel(no_query_mark, 4);
}
#[verifier::spinoff_prover]
#[verifier::rlimit(60)]
proof fn lemma_text_21()
    ensures
        all_path_chars("/me/events"@),
        "/me/events"@.len() == 10,
        no_query_mark("/me/events"@),
{
    reveal_strlit("/me/events");
    reveal_with_fuel(all_path_chars, 11);
    reveal_with_fuel(no_query_mark, 11);
}
#[verifier::spinoff_prover]
#[verifier::rlimit(60)]
proof fn lemma_text_22()
    ensures
        all_path_chars("/me/files"@),
        "/me/files"@.len() == 9,
        no_query_mark("/me/files"@),
{
    reveal_strlit("/me/files");
    reveal_with_fuel(all_path_chars, 10);
    reveal_with_fuel(no_query_mark, 10);
}
#[verifier::spinoff_prover]
#[verifier::rlimit(60)]
proof fn lemma_text_23()
    ensures
        all_path_chars("/me/games"@),
        "/me/games"@.len() == 9,
        no_query_mark("/me/games"@),
{
    reveal_strlit("/me/games");
    reveal_with_fuel(all_path_chars, 10);
    reveal_with_fuel(no_query_mark, 10);
}
#[verifier::spinoff_prover]
#[verifier::rlimit(60)]
proof fn lemma_text_24()
    ensures
        all_path_chars("/me/mods"@),
        "/me/mods"@.len() == 8,
        no_query_mark("/me/mods"@),
{
    reveal_strlit("/me/mods");
    reveal_with_fuel(all_path_chars, 9);
    reveal_with_fuel(no_query_mark, 9);
}
#[verifier::spinoff_prover]
#[verifier::rlimit(60)]
proof fn lemma_text_25()
    ensures
        all_path_chars("/me/ratings"@),
        "/me/ratings"@.len() == 11,
        no_query_mark("/me/ratings"@),
{
    reveal_strlit("/me/ratings");
    reveal_with_fuel(all_path_chars, 12);
    reveal_with_fuel(no_query_mark, 12);
}
#[verifier::spinoff_prover]
#[verifier::rlimit(60)]
proof fn lemma_text_26()
    ensures
        all_path_chars("/me/subscribed"@),
        "/me/subscribed"@.len() == 14,
        no_query_mark("/me/subscribed"@),
{
    reveal_strlit("/me/subscribed");
    reveal_with_fuel(all_path_chars, 15);
    reveal_with_fuel(no_query_mark, 15);
}
#[verifier::spinoff_prover]
#[verifier::rlimit(60)]
proof fn lemma_text_27()
    ensures
        all_path_chars("/me/users/muted"@),
        "/me/users/muted"@.len() == 15,
        no_query_mark("/me/users/muted"@),
{
    reveal_strlit("/me/users/muted");
    reveal_with_fuel(all_path_chars, 16);
    reveal_with_fuel(no_query_mark, 16);
}
#[verifier::spinoff_prover]
#[verifier::rlimit(60)]
proof fn lemma_text_28()
    ensures
        all_path_chars("/media"@),
        "/media"@.len() == 6,
        no_query_mark("/media"@),
{
    reveal_strlit("/media");
    reveal_with_fuel(all_path_chars, 7);
    reveal_with_fuel(no_query_mark, 7);
}
#[verifier::spinoff_prover]
#[verifier::rlimit(60)]
proof fn lemma_text_29()
    ensures
        all_path_chars("/media/reorder"@),
        "/media/reorder"@.len() == 14,
        no_query_mark("/media/reorder"@),
{
    reveal_strlit("/media/reorder");
    reveal_with_fuel(all_path_chars, 15);
    reveal_with_fuel(no_query_mark, 15);
}
#[verifier::spinoff_prover]
#[verifier::rlimit(60)]
proof fn lemma_text_30()
    ensures
        all_path_chars("/metadatakvp"@),
        "/metadatakvp"@.len() == 12,
        no_query_mark("/metadatakvp"@),
{
    reveal_strlit("/metadatakvp");
    reveal_with_fuel(all_path_chars, 13);
    reveal_with_fuel(no_query_mark, 13);
}
#[verifier::spinoff_prover]
#[verifier::rlimit(60)]
proof fn lemma_text_31()
    ensures
        all_path_chars("/mods"@),
        "/mods"@.len() == 5,
        no_query_mark("/mods"@),
{
    reveal_strlit("/mods");
    reveal_with_fuel(all_path_chars, 6);
    reveal_with_fuel(no_query_mark, 6);
}
#[verifier::spinoff_prover]
#[verifier::rlimit(60)]
proof fn lemma_text_32()
    ensures
        all_path_chars("/mods/"@),
        "/mods/"@.len() == 6,
        no_query_mark("/mods/"@),
{
    reveal_strlit("/mods/");
    reveal_with_fuel(all_path_chars, 7);
    reveal_with_fuel(no_query_mark, 7);
}
#[verifier::spinoff_prover]
#[verifier::rlimit(60)]
proof fn lemma_text_33()
    ensures
        all_path_chars("/mods/events"@),
        "/mods/events"@.len() == 12,
        no_query_mark("/mods/events"@),
{
    reveal_strlit("/mods/events");
    reveal_with_fuel(all_path_chars, 13);
    reveal_with_fuel(no_query_mark, 13);
}
#[verifier::spinoff_prover]
#[verifier::rlimit(60)]
proof fn lemma_text_34()
    ensures
        all_path_chars("/mods/stats"@),
        "/mods/stats"@.len() == 11,
        no_query_mark("/mods/stats"@),
{
    reveal_strlit("/mods/stats");
    reveal_with_fuel(all_path_chars, 12);
    reveal_with_fuel(no_query_mark, 12);
}
#[verifier::spinoff_prover]
#[verifier::rlimit(60)]
proof fn lemma_text_35()
    ensures
        all_path_chars("/mute"@),
        "/mute"@.len() == 5,
        no_query_mark("/mute"@),
{
    reveal_strlit("/mute");
    reveal_with_fuel(all_path_chars, 6);
    reveal_with_fuel(no_query_mark, 6);
}
#[verifier::spinoff_prover]
#[verifier::rlimit(60)]
proof fn lemma_text_36()
    ensures
        all_path_chars("/oauth/emailexchange"@),
        "/oauth/emailexchange"@.len() == 20,
        no_query_mark("/oauth/emailexchange"@),
{
    reveal_strlit("/oauth/emailexchange");
    reveal_with_fuel(all_path_chars, 21);
    reveal_with_fuel(no_query_mark, 21);
}
#[verifier::spinoff_prover]
#[verifier::rlimit(60)]
proof fn lemma_text_37()
    ensures
        all_path_chars("/oauth/emailrequest"@),
        "/oauth/emailrequest"@.len() == 19,
        no_query_mark("/oauth/emailrequest"@),
{
    reveal_strlit("/oauth/emailrequest");
    reveal_with_fuel(all_path_chars, 20);
    reveal_with_fuel(no_query_mark, 20);
}
#[verifier::spinoff_prover]
#[verifier::rlimit(60)]
proof fn lemma_text_38()
    ensures
        all_path_chars("/oauth/logout"@),
        "/oauth/logout"@.len() == 13,
        no_query_mark("/oauth/logout"@),
{
    reveal_strlit("/oauth/logout");
    reveal_with_fuel(all_path_chars, 14);
    reveal_with_fuel(no_query_mark, 14);
}
#[verifier::spinoff_prover]
#[verifier::rlimit(60)]
proof fn lemma_text_39()
    ensures
        all_path_chars("/platforms"@),
        "/platforms"@.len() == 10,
        no_query_mark("/platforms"@),
{
    reveal_strlit("/platforms");
    reveal_with_fuel(all_path_chars, 11);
    reveal_with_fuel(no_query_mark, 11);
}
#[verifier::spinoff_prover]
#[verifier::rlimit(60)]
proof fn lemma_text_40()
    ensures
        all_path_chars("/ratings"@),
        "/ratings"@.len() == 8,
        no_query_mark("/ratings"@),
{
    reveal_strlit("/ratings");
    reveal_with_fuel(all_path_chars, 9);
    reveal_with_fuel(no_query_mark, 9);
}
#[verifier::spinoff_prover]
#[verifier::rlimit(60)]
proof fn lemma_text_41()
    ensures
        all_path_chars("/report"@),
        "/report"@.len() == 7,
        no_query_mark("/report"@),
{
    reveal_strlit("/report");
    reveal_with_fuel(all_path_chars, 8);
    reveal_with_fuel(no_query_mark, 8);
}
#[verifier::spinoff_prover]
#[verifier::rlimit(60)]
proof fn lemma_text_42()
    ensures
        all_path_chars("/stats"@),
        "/stats"@.len() == 6,
        no_query_mark("/stats"@),
{
    reveal_strlit("/stats");
    reveal_with_fuel(all_path_chars, 7);
    reveal_with_fuel(no_query_mark, 7);
}
#[verifier::spinoff_prover]
#[verifier::rlimit(60)]
proof fn lemma_text_43()
    ensures
        all_path_chars("/subscribe"@),
        "/subscribe"@.len() == 10,
        no_query_mark("/subscribe"@),
{
    reveal_strlit("/subscribe");
    reveal_with_fuel(all_path_chars, 11);
    reveal_with_fuel(no_query_mark, 11);
}
#[verifier::spinoff_prover]
#[verifier::rlimit(60)]
proof fn lemma_text_44()
    ensures
        all_path_chars("/tags"@),
        "/tags"@.len() == 5,
        no_query_mark("/tags"@),
{
    reveal_strlit("/tags");
    reveal_with_fuel(all_path_chars, 6);
    reveal_with_fuel(no_query_mark, 6);
}
#[verifier::spinoff_prover]
#[verifier::rlimit(60)]
proof fn lemma_text_45()
    ensures
        all_path_chars("/tags/rename"@),
        "/tags/rename"@.len() == 12,
        no_query_mark("/tags/rename"@),
{
    reveal_strlit("/tags/rename");
    reveal_with_fuel(all_path_chars, 13);
    reveal_with_fuel(no_query_mark, 13);
}
#[verifier::spinoff_prover]
#[verifier::rlimit(60)]
proof fn lemma_text_46()
    ensures
        all_path_chars("/team"@),
        "/team"@.len() == 5,
        no_query_mark("/team"@),
{
    reveal_strlit("/team");
    reveal_with_fuel(all_path_chars, 6);
    reveal_with_fuel(no_query_mark, 6);
}
#[verifier::spinoff_prover]
#[verifier::rlimit(60)]
proof fn lemma_text_47()
    ensures
        all_path_chars("/users/"@),
        "/users/"@.len() == 7,
        no_query_mark("/users/"@),
{
    reveal_strlit("/users/");
    reveal_with_fuel(all_path_chars, 8);
    reveal_with_fuel(no_query_mark, 8);
}
#[verifier::spinoff_prover]
#[verifier::rlimit(60)]
proof fn lemma_text_48()
    ensures
        all_path_chars("?recursive="@),
        "?recursive="@.len() == 11,
        "?recursive="@[0] == '?',
{
    reveal_strlit("?recursive=");
    reveal_with_fuel(all_path_chars, 12);
    reveal_with_fuel(no_query_mark, 12);
}
#[verifier::spinoff_prover]
#[verifier::rlimit(60)]
proof fn lemma_text_49()
    ensures
        all_path_chars("?show_hidden_tags="@),
        "?show_hidden_tags="@.len() == 18,
        "?show_hidden_tags="@[0] == '?',
{
    reveal_strlit("?show_hidden_tags=");
    reveal_with_fuel(all_path_chars, 19);
    reveal_with_fuel(no_query_mark, 19);
}
/// The IDs a route's path holds, in the order in which they stand in it.
pub open spec fn route_ids(r: Route) -> Seq<u64> {
    match r {
        Route::AddFile { game_id, mod_id } => seq![game_id@, mod_id@],
        Route::AddGameMedia { game_id } => seq![game_id@],
        Route::AddGameTags { game_id } => seq![game_id@],
        Route::AddMod { game_id } => seq![game_id@],
        Route::AddModComment { game_id, mod_id } => seq![game_id@, mod_id@],
        Route::AddModDependencies { game_id, mod_id } => seq![game_id@, mod_id@],
        Route::AddModMedia { game_id, mod_id } => seq![game_id@, mod_id@],
        Route::AddModMetadata { game_id, mod_id } => seq![game_id@, mod_id@],
        Route::AddModTags { game_id, mod_id } => seq![game_id@, mod_id@],
        Route::DeleteFile { game_id, mod_id, file_id } => seq![game_id@, mod_id@, file_id@],
        Route::DeleteGameTags { game_id } => seq![game_id@],
        Route::DeleteMod { game_id, mod_id } => seq![game_id@, mod_id@],
        Route::DeleteModComment { game_id, mod_id, comment_id } => seq![game_id@, mod_id@, comment_id@],
        Route::DeleteModDependencies { game_id, mod_id } => seq![game_id@, mod_id@],
        Route::DeleteModMedia { game_id, mod_id } => seq![game_id@, mod_id@],
        Route::DeleteModMetadata { game_id, mod_id } => seq![game_id@, mod_id@],
        Route::DeleteModTags { game_id, mod_id } => seq![game_id@, mod_id@],
        Route::EditFile { game_id, mod_id, file_id } => seq![game_id@, mod_id@, file_id@],
        Route::EditMod { game_id, mod_id } => seq![game_id@, mod_id@],
        Route::EditModComment { game_id, mod_id, comment_id } => seq![game_id@, mod_id@, comment_id@],
        Route::ExternalAuthDiscord => Seq::empty(),
        Route::ExternalAuthEpic => Seq::empty(),
        Route::ExternalAuthGoogle => Seq::empty(),
        Route::ExternalAuthMeta => Seq::empty(),
        Route::ExternalAuthOpenID => Seq::empty(),
        Route::ExternalAuthPSN => Seq::empty(),
        Route::ExternalAuthSteam => Seq::empty(),
        Route::ExternalAuthSwitch => Seq::empty(),
        Route::ExternalAuthXbox => Seq::empty(),
        Route::GetFile { game_id, mod_id, file_id } => seq![game_id@, mod_id@, file_id@],
        Route::GetFiles { game_id, mod_id } => seq![game_id@, mod_id@],
        Route::GetGame { id, .. } => seq![id@],
        Route::GetGames { .. } => Seq::empty(),
        Route::GetGameStats { game_id } => seq![game_id@],
        Route::GetGameTags { game_id, .. } => seq![game_id@],
        Route::GetMod { game_id, mod_id } => seq![game_id@, mod_id@],
        Route::GetModComment { game_id, mod_id, comment_id } => seq![game_id@, mod_id@, comment_id@],
        Route::GetModComments { game_id, mod_id } => seq![game_id@, mod_id@],
        Route::GetModDependencies { game_id, mod_id, .. } => seq![game_id@, mod_id@],
        Route::GetModEvents { game_id, mod_id } => seq![game_id@, mod_id@],
        Route::GetModMetadata { game_id, mod_id } => seq![game_id@, mod_id@],
        Route::GetModStats { game_id, mod_id } => seq![game_id@, mod_id@],
        Route::GetModTags { game_id, mod_id } => seq![game_id@, mod_id@],
        Route::GetModTeamMembers { game_id, mod_id } => seq![game_id@, mod_id@],
        Route::GetMods { game_id } => seq![game_id@],
        Route::GetModsEvents { game_id } => seq![game_id@],
        Route::GetModsStats { game_id } => seq![game_id@],
        Route::ManagePlatformStatus { game_id, mod_id, file_id } => seq![game_id@, mod_id@, file_id@],
        Route::MuteUser { user_id } => seq![user_id@],
        Route::OAuthEmailRequest => Seq::empty(),
        Route::OAuthEmailExchange => Seq::empty(),
        Route::OAuthLogout => Seq::empty(),
        Route::RateMod { game_id, mod_id } => seq![game_id@, mod_id@],
        Route::RenameGameTags { game_id } => seq![game_id@],
        Route::ReorderModMedia { game_id, mod_id } => seq![game_id@, mod_id@],
        Route::SubmitReport => Seq::empty(),
        Route::SubscribeToMod { game_id, mod_id } => seq![game_id@, mod_id@],
        Route::Terms => Seq::empty(),
        Route::UnmuteUser { user_id } => seq![user_id@],
        Route::UnsubscribeFromMod { game_id, mod_id } => seq![game_id@, mod_id@],
        Route::UpdateModCommentKarma { game_id, mod_id, comment_id } => seq![game_id@, mod_id@, comment_id@],
        Route::UserAuthenticated => Seq::empty(),
        Route::UserEvents => Seq::empty(),
        Route::UserFiles => Seq::empty(),
        Route::UserGames => Seq::empty(),
        Route::UserMods => Seq::empty(),
        Route::UserMuted => Seq::empty(),
        Route::UserRatings => Seq::empty(),
        Route::UserSubscriptions => Seq::empty(),
    }
}

/// What holds of every route's path: it is made of path characters and at
/// most 300 characters long, it holds a `?` exactly when the route carries a
/// query, and each ID of the route stands in it in decimal.
pub open spec fn route_path_facts(r: Route) -> bool {
    &&& all_path_chars(r.path_text())
    &&& r.path_text().len() <= 300
    &&& (no_query_mark(r.path_text()) <==> !has_query(r))
    &&& forall|k: int|
        0 <= k < route_ids(r).len() ==> contains(
            r.path_text(),
            decimal(#[trigger] route_ids(r)[k] as nat),
        )
}

/// Whether a route carries a query: a set flag of `GetGame`, `GetGames`,
/// `GetGameTags` or `GetModDependencies`.
pub open spec fn has_query(r: Route) -> bool {
    match r {
        Route::GetGame { show_hidden_tags, .. } => show_hidden_tags is Some,
        Route::GetGames { show_hidden_tags, .. } => show_hidden_tags is Some,
        Route::GetGameTags { show_hidden_tags, .. } => show_hidden_tags is Some,
        Route::GetModDependencies { recursive, .. } => recursive is Some,
        _ => false,
    }
}

/// Every path is made of path characters and is at most 300 characters
/// long; it holds a `?` exactly when the route carries a query; and each ID
/// of the route stands in it in decimal.
pub proof fn lemma_route_path(r: Route)
    ensures
        route_path_facts(r),
{
    match r {
        Route::AddFile { .. } => lemma_path_add_file(r),
        Route::AddGameMedia { .. } => lemma_path_add_game_media(r),
        Route::AddGameTags { .. } => lemma_path_add_game_tags(r),
        Route::AddMod { .. } => lemma_path_add_mod(r),
        Route::AddModComment { .. } => lemma_path_add_mod_comment(r),
        Route::AddModDependencies { .. } => lemma_path_add_mod_dependencies(r),
        Route::AddModMedia { .. } => lemma_path_add_mod_media(r),
        Route::AddModMetadata { .. } => lemma_path_add_mod_metadata(r),
        Route::AddModTags { .. } => lemma_path_add_mod_tags(r),
        Route::DeleteFile { .. } => lemma_path_delete_file(r),
        Route::DeleteGameTags { .. } => lemma_path_delete_game_tags(r),
        Route::DeleteMod { .. } => lemma_path_delete_mod(r),
        Route::DeleteModComment { .. } => lemma_path_delete_mod_comment(r),
        Route::DeleteModDependencies { .. } => lemma_path_delete_mod_dependencies(r),
        Route::DeleteModMedia { .. } => lemma_path_delete_mod_media(r),
        Route::DeleteModMetadata { .. } => lemma_path_delete_mod_metadata(r),
        Route::DeleteModTags { .. } => lemma_path_delete_mod_tags(r),
        Route::EditFile { .. } => lemma_path_edit_file(r),
        Route::EditMod { .. } => lemma_path_edit_mod(r),
        Route::EditModComment { .. } => lemma_path_edit_mod_comment(r),
        Route::ExternalAuthDiscord { .. } => lemma_path_external_auth_discord(r),
        Route::ExternalAuthEpic { .. } => lemma_path_external_auth_epic(r),
        Route::ExternalAuthGoogle { .. } => lemma_path_external_auth_google(r),
        Route::ExternalAuthMeta { .. } => lemma_path_external_auth_meta(r),
        Route::ExternalAuthOpenID { .. } => lemma_path_external_auth_open_i_d(r),
        Route::ExternalAuthPSN { .. } => lemma_path_external_auth_p_s_n(r),
        Route::ExternalAuthSteam { .. } => lemma_path_external_auth_steam(r),
        Route::ExternalAuthSwitch { .. } => lemma_path_external_auth_switch(r),
        Route::ExternalAuthXbox { .. } => lemma_path_external_auth_xbox(r),
        Route::GetFile { .. } => lemma_path_get_file(r),
        Route::GetFiles { .. } => lemma_path_get_files(r),
        Route::GetGame { .. } => lemma_path_get_game(r),
        Route::GetGames { .. } => lemma_path_get_games(r),
        Route::GetGameStats { .. } => lemma_path_get_game_stats(r),
        Route::GetGameTags { .. } => lemma_path_get_game_tags(r),
        Route::GetMod { .. } => lemma_path_get_mod(r),
        Route::GetModComment { .. } => lemma_path_get_mod_comment(r),
        Route::GetModComments { .. } => lemma_path_get_mod_comments(r),
        Route::GetModDependencies { .. } => lemma_path_get_mod_dependencies(r),
        Route::GetModEvents { .. } => lemma_path_get_mod_events(r),
        Route::GetModMetadata { .. } => lemma_path_get_mod_metadata(r),
        Route::GetModStats { .. } => lemma_path_get_mod_stats(r),
        Route::GetModTags { .. } => lemma_path_get_mod_tags(r),
        Route::GetModTeamMembers { .. } => lemma_path_get_mod_team_members(r),
        Route::GetMods { .. } => lemma_path_get_mods(r),
        Route::GetModsEvents { .. } => lemma_path_get_mods_events(r),
        Route::GetModsStats { .. } => lemma_path_get_mods_stats(r),
        Route::ManagePlatformStatus { .. } => lemma_path_manage_platform_status(r),
        Route::MuteUser { .. } => lemma_path_mute_user(r),
        Route::OAuthEmailRequest { .. } => lemma_path_o_auth_email_request(r),
        Route::OAuthEmailExchange { .. } => lemma_path_o_auth_email_exchange(r),
        Route::OAuthLogout { .. } => lemma_path_o_auth_logout(r),
        Route::RateMod { .. } => lemma_path_rate_mod(r),
        Route::RenameGameTags { .. } => lemma_path_rename_game_tags(r),
        Route::ReorderModMedia { .. } => lemma_path_reorder_mod_media(r),
        Route::SubmitReport { .. } => lemma_path_submit_report(r),
        Route::SubscribeToMod { .. } => lemma_path_subscribe_to_mod(r),
        Route::Terms { .. } => lemma_path_terms(r),
        Route::UnmuteUser { .. } => lemma_path_unmute_user(r),
        Route::UnsubscribeFromMod { .. } => lemma_path_unsubscribe_from_mod(r),
        Route::UpdateModCommentKarma { .. } => lemma_path_update_mod_comment_karma(r),
        Route::UserAuthenticated { .. } => lemma_path_user_authenticated(r),
        Route::UserEvents { .. } => lemma_path_user_events(r),
        Route::UserFiles { .. } => lemma_path_user_files(r),
        Route::UserGames { .. } => lemma_path_user_games(r),
        Route::UserMods { .. } => lemma_path_user_mods(r),
        Route::UserMuted { .. } => lemma_path_user_muted(r),
        Route::UserRatings { .. } => lemma_path_user_ratings(r),
        Route::UserSubscriptions { .. } => lemma_path_user_subscriptions(r),
    }
}

#[verifier::spinoff_prover]
#[verifier::rlimit(100)]
proof fn lemma_path_add_file(r: Route)
    requires
        r is AddFile,
    ensures
        route_path_facts(r),
{
    match r {
        Route::AddFile { game_id, mod_id } => {
            lemma_text_18();
            lemma_text_32();
            lemma_text_15();
            lemma_seg2("/games/"@, game_id@, "/mods/"@, mod_id@, "/files"@);
        },
        _ => {},
    }
}

#[verifier::spinoff_prover]
#[verifier::rlimit(100)]
proof fn lemma_path_add_game_media(r: Route)
    requires
        r is AddGameMedia,
    ensures
        route_path_facts(r),
{
    match r {
        Route::AddGameMedia { game_id } => {
            lemma_text_18();
            lemma_text_28();
            lemma_seg1("/games/"@, game_id@, "/media"@);
        },
        _ => {},
    }
}

#[verifier::spinoff_prover]
#[verifier::rlimit(100)]
proof fn lemma_path_add_game_tags(r: Route)
    requires
        r is AddGameTags,
    ensures
        route_path_facts(r),
{
    match r {
        Route::AddGameTags { game_id } => {
            lemma_text_18();
            lemma_text_44();
            lemma_seg1("/games/"@, game_id@, "/tags"@);
        },
        _ => {},
    }
}

#[verifier::spinoff_prover]
#[verifier::rlimit(100)]
proof fn lemma_path_add_mod(r: Route)
    requires
        r is AddMod,
    ensures
        route_path_facts(r),
{
    match r {
        Route::AddMod { game_id } => {
            lemma_text_18();
            lemma_text_31();
            lemma_seg1("/games/"@, game_id@, "/mods"@);
        },
        _ => {},
    }
}

#[verifier::spinoff_prover]
#[verifier::rlimit(100)]
proof fn lemma_path_add_mod_comment(r: Route)
    requires
        r is AddModComment,
    ensures
        route_path_facts(r),
{
    match r {
        Route::AddModComment { game_id, mod_id } => {
            lemma_text_18();
            lemma_text_32();
            lemma_text_2();
            lemma_seg2("/games/"@, game_id@, "/mods/"@, mod_id@, "/comments"@);
        },
        _ => {},
    }
}

#[verifier::spinoff_prover]
#[verifier::rlimit(100)]
proof fn lemma_path_add_mod_dependencies(r: Route)
    requires
        r is AddModDependencies,
    ensures
        route_path_facts(r),
{
    match r {
        Route::AddModDependencies { game_id, mod_id } => {
            lemma_text_18();
            lemma_text_32();
            lemma_text_4();
            lemma_seg2("/games/"@, game_id@, "/mods/"@, mod_id@, "/dependencies"@);
        },
        _ => {},
    }
}

#[verifier::spinoff_prover]
#[verifier::rlimit(100)]
proof fn lemma_path_add_mod_media(r: Route)
    requires
        r is AddModMedia,
    ensures
        route_path_facts(r),
{
    match r {
        Route::AddModMedia { game_id, mod_id } => {
            lemma_text_18();
            lemma_text_32();
            lemma_text_28();
            lemma_seg2("/games/"@, game_id@, "/mods/"@, mod_id@, "/media"@);
        },
        _ => {},
    }
}

#[verifier::spinoff_prover]
#[verifier::rlimit(100)]
proof fn lemma_path_add_mod_metadata(r: Route)
    requires
        r is AddModMetadata,
    ensures
        route_path_facts(r),
{
    match r {
        Route::AddModMetadata { game_id, mod_id } => {
            lemma_text_18();
            lemma_text_32();
            lemma_text_30();
            lemma_seg2("/games/"@, game_id@, "/mods/"@, mod_id@, "/metadatakvp"@);
        },
        _ => {},
    }
}

#[verifier::spinoff_prover]
#[verifier::rlimit(100)]
proof fn lemma_path_add_mod_tags(r: Route)
    requires
        r is AddModTags,
    ensures
        route_path_facts(r),
{
    match r {
        Route::AddModTags { game_id, mod_id } => {
            lemma_text_18();
            lemma_text_32();
            lemma_text_44();
            lemma_seg2("/games/"@, game_id@, "/mods/"@, mod_id@, "/tags"@);
        },
        _ => {},
    }
}

#[verifier::spinoff_prover]
#[verifier::rlimit(100)]
proof fn lemma_path_delete_file(r: Route)
    requires
        r is DeleteFile,
    ensures
        route_path_facts(r),
{
    match r {
        Route::DeleteFile { game_id, mod_id, file_id } => {
            lemma_text_18();
            lemma_text_32();
            lemma_text_16();
            lemma_text_0();
            lemma_seg3("/games/"@, game_id@, "/mods/"@, mod_id@, "/files/"@, file_id@, ""@);
        },
        _ => {},
    }
}

#[verifier::spinoff_prover]
#[verifier::rlimit(100)]
proof fn lemma_path_delete_game_tags(r: Route)
    requires
        r is DeleteGameTags,
    ensures
        route_path_facts(r),
{
    match r {
        Route::DeleteGameTags { game_id } => {
            lemma_text_18();
            lemma_text_44();
            lemma_seg1("/games/"@, game_id@, "/tags"@);
        },
        _ => {},
    }
}

#[verifier::spinoff_prover]
#[verifier::rlimit(100)]
proof fn lemma_path_delete_mod(r: Route)
    requires
        r is DeleteMod,
    ensures
        route_path_facts(r),
{
    match r {
        Route::DeleteMod { game_id, mod_id } => {
            lemma_text_18();
            lemma_text_32();
            lemma_text_0();
            lemma_seg2("/games/"@, game_id@, "/mods/"@, mod_id@, ""@);
        },
        _ => {},
    }
}

#[verifier::spinoff_prover]
#[verifier::rlimit(100)]
proof fn lemma_path_delete_mod_comment(r: Route)
    requires
        r is DeleteModComment,
    ensures
        route_path_facts(r),
{
    match r {
        Route::DeleteModComment { game_id, mod_id, comment_id } => {
            lemma_text_18();
            lemma_text_32();
            lemma_text_3();
            lemma_text_0();
            lemma_seg3("/games/"@, game_id@, "/mods/"@, mod_id@, "/comments/"@, comment_id@, ""@);
        },
        _ => {},
    }
}

#[verifier::spinoff_prover]
#[verifier::rlimit(100)]
proof fn lemma_path_delete_mod_dependencies(r: Route)
    requires
        r is DeleteModDependencies,
    ensures
        route_path_facts(r),
{
    match r {
        Route::DeleteModDependencies { game_id, mod_id } => {
            lemma_text_18();
            lemma_text_32();
            lemma_text_4();
            lemma_seg2("/games/"@, game_id@, "/mods/"@, mod_id@, "/dependencies"@);
        },
        _ => {},
    }
}

#[verifier::spinoff_prover]
#[verifier::rlimit(100)]
proof fn lemma_path_delete_mod_media(r: Route)
    requires
        r is DeleteModMedia,
    ensures
        route_path_facts(r),
{
    match r {
        Route::DeleteModMedia { game_id, mod_id } => {
            lemma_text_18();
            lemma_text_32();
            lemma_text_28();
            lemma_seg2("/games/"@, game_id@, "/mods/"@, mod_id@, "/media"@);
        },
        _ => {},
    }
}

#[verifier::spinoff_prover]
#[verifier::rlimit(100)]
proof fn lemma_path_delete_mod_metadata(r: Route)
    requires
        r is DeleteModMetadata,
    ensures
        route_path_facts(r),
{
    match r {
        Route::DeleteModMetadata { game_id, mod_id } => {
            lemma_text_18();
            lemma_text_32();
            lemma_text_30();
            lemma_seg2("/games/"@, game_id@, "/mods/"@, mod_id@, "/metadatakvp"@);
        },
        _ => {},
    }
}

#[verifier::spinoff_prover]
#[verifier::rlimit(100)]
proof fn lemma_path_delete_mod_tags(r: Route)
    requires
        r is DeleteModTags,
    ensures
        route_path_facts(r),
{
    match r {
        Route::DeleteModTags { game_id, mod_id } => {
            lemma_text_18();
            lemma_text_32();
            lemma_text_44();
            lemma_seg2("/games/"@, game_id@, "/mods/"@, mod_id@, "/tags"@);
        },
        _ => {},
    }
}

#[verifier::spinoff_prover]
#[verifier::rlimit(100)]
proof fn lemma_path_edit_file(r: Route)
    requires
        r is EditFile,
    ensures
        route_path_facts(r),
{
    match r {
        Route::EditFile { game_id, mod_id, file_id } => {
            lemma_text_18();
            lemma_text_32();
            lemma_text_16();
            lemma_text_0();
            lemma_seg3("/games/"@, game_id@, "/mods/"@, mod_id@, "/files/"@, file_id@, ""@);
        },
        _ => {},
    }
}

#[verifier::spinoff_prover]
#[verifier::rlimit(100)]
proof fn lemma_path_edit_mod(r: Route)
    requires
        r is EditMod,
    ensures
        route_path_facts(r),
{
    match r {
        Route::EditMod { game_id, mod_id } => {
            lemma_text_18();
            lemma_text_32();
            lemma_text_0();
            lemma_seg2("/games/"@, game_id@, "/mods/"@, mod_id@, ""@);
        },
        _ => {},
    }
}

#[verifier::spinoff_prover]
#[verifier::rlimit(100)]
proof fn lemma_path_edit_mod_comment(r: Route)
    requires
        r is EditModComment,
    ensures
        route_path_facts(r),
{
    match r {
        Route::EditModComment { game_id, mod_id, comment_id } => {
            lemma_text_18();
            lemma_text_32();
            lemma_text_3();
            lemma_text_0();
            lemma_seg3("/games/"@, game_id@, "/mods/"@, mod_id@, "/comments/"@, comment_id@, ""@);
        },
        _ => {},
    }
}

#[verifier::spinoff_prover]
#[verifier::rlimit(100)]
proof fn lemma_path_external_auth_discord(r: Route)
    requires
        r is ExternalAuthDiscord,
    ensures
        route_path_facts(r),
{
    match r {
        Route::ExternalAuthDiscord => {
            lemma_text_6();
        },
        _ => {},
    }
}

#[verifier::spinoff_prover]
#[verifier::rlimit(100)]
proof fn lemma_path_external_auth_epic(r: Route)
    requires
        r is ExternalAuthEpic,
    ensures
        route_path_facts(r),
{
    match r {
        Route::ExternalAuthEpic => {
            lemma_text_7();
        },
        _ => {},
    }
}

#[verifier::spinoff_prover]
#[verifier::rlimit(100)]
proof fn lemma_path_external_auth_google(r: Route)
    requires
        r is ExternalAuthGoogle,
    ensures
        route_path_facts(r),
{
    match r {
        Route::ExternalAuthGoogle => {
            lemma_text_8();
        },
        _ => {},
    }
}

#[verifier::spinoff_prover]
#[verifier::rlimit(100)]
proof fn lemma_path_external_auth_meta(r: Route)
    requires
        r is ExternalAuthMeta,
    ensures
        route_path_facts(r),
{
    match r {
        Route::ExternalAuthMeta => {
            lemma_text_9();
        },
        _ => {},
    }
}

#[verifier::spinoff_prover]
#[verifier::rlimit(100)]
proof fn lemma_path_external_auth_open_i_d(r: Route)
    requires
        r is ExternalAuthOpenID,
    ensures
        route_path_facts(r),
{
    match r {
        Route::ExternalAuthOpenID => {
            lemma_text_10();
        },
        _ => {},
    }
}

#[verifier::spinoff_prover]
#[verifier::rlimit(100)]
proof fn lemma_path_external_auth_p_s_n(r: Route)
    requires
        r is ExternalAuthPSN,
    ensures
        route_path_facts(r),
{
    match r {
        Route::ExternalAuthPSN => {
            lemma_text_11();
        },
        _ => {},
    }
}

#[verifier::spinoff_prover]
#[verifier::rlimit(100)]
proof fn lemma_path_external_auth_steam(r: Route)
    requires
        r is ExternalAuthSteam,
    ensures
        route_path_facts(r),
{
    match r {
        Route::ExternalAuthSteam => {
            lemma_text_12();
        },
        _ => {},
    }
}

#[verifier::spinoff_prover]
#[verifier::rlimit(100)]
proof fn lemma_path_external_auth_switch(r: Route)
    requires
        r is ExternalAuthSwitch,
    ensures
        route_path_facts(r),
{
    match r {
        Route::ExternalAuthSwitch => {
            lemma_text_13();
        },
        _ => {},
    }
}

#[verifier::spinoff_prover]
#[verifier::rlimit(100)]
proof fn lemma_path_external_auth_xbox(r: Route)
    requires
        r is ExternalAuthXbox,
    ensures
        route_path_facts(r),
{
    match r {
        Route::ExternalAuthXbox => {
            lemma_text_14();
        },
        _ => {},
    }
}

#[verifier::spinoff_prover]
#[verifier::rlimit(100)]
proof fn lemma_path_get_file(r: Route)
    requires
        r is GetFile,
    ensures
        route_path_facts(r),
{
    match r {
        Route::GetFile { game_id, mod_id, file_id } => {
            lemma_text_18();
            lemma_text_32();
            lemma_text_16();
            lemma_text_0();
            lemma_seg3("/games/"@, game_id@, "/mods/"@, mod_id@, "/files/"@, file_id@, ""@);
        },
        _ => {},
    }
}

#[verifier::spinoff_prover]
#[verifier::rlimit(100)]
proof fn lemma_path_get_files(r: Route)
    requires
        r is GetFiles,
    ensures
        route_path_facts(r),
{
    match r {
        Route::GetFiles { game_id, mod_id } => {
            lemma_text_18();
            lemma_text_32();
            lemma_text_15();
            lemma_seg2("/games/"@, game_id@, "/mods/"@, mod_id@, "/files"@);
        },
        _ => {},
    }
}

#[verifier::spinoff_prover]
#[verifier::rlimit(100)]
proof fn lemma_path_get_game(r: Route)
    requires
        r is GetGame,
    ensures
        route_path_facts(r),
{
    match r {
        Route::GetGame { id, show_hidden_tags } => {
            lemma_text_18();
            lemma_text_0();
            lemma_text_49();
            lemma_seg1("/games/"@, id@, ""@);
            lemma_query(seg1("/games/"@, id@ as nat, ""@), "?show_hidden_tags="@, show_hidden_tags);
        },
        _ => {},
    }
}

#[verifier::spinoff_prover]
#[verifier::rlimit(100)]
proof fn lemma_path_get_games(r: Route)
    requires
        r is GetGames,
    ensures
        route_path_facts(r),
{
    match r {
        Route::GetGames { show_hidden_tags } => {
            lemma_text_17();
            lemma_text_49();
            lemma_query("/games"@, "?show_hidden_tags="@, show_hidden_tags);
        },
        _ => {},
    }
}

#[verifier::spinoff_prover]
#[verifier::rlimit(100)]
proof fn lemma_path_get_game_stats(r: Route)
    requires
        r is GetGameStats,
    ensures
        route_path_facts(r),
{
    match r {
        Route::GetGameStats { game_id } => {
            lemma_text_18();
            lemma_text_42();
            lemma_seg1("/games/"@, game_id@, "/stats"@);
        },
        _ => {},
    }
}

#[verifier::spinoff_prover]
#[verifier::rlimit(100)]
proof fn lemma_path_get_game_tags(r: Route)
    requires
        r is GetGameTags,
    ensures
        route_path_facts(r),
{
    match r {
        Route::GetGameTags { game_id, show_hidden_tags } => {
            lemma_text_18();
            lemma_text_44();
            lemma_text_49();
            lemma_seg1("/games/"@, game_id@, "/tags"@);
            lemma_query(seg1("/games/"@, game_id@ as nat, "/tags"@), "?show_hidden_tags="@, show_hidden_tags);
        },
        _ => {},
    }
}

#[verifier::spinoff_prover]
#[verifier::rlimit(100)]
proof fn lemma_path_get_mod(r: Route)
    requires
        r is GetMod,
    ensures
        route_path_facts(r),
{
    match r {
        Route::GetMod { game_id, mod_id } => {
            lemma_text_18();
            lemma_text_32();
            lemma_text_0();
            lemma_seg2("/games/"@, game_id@, "/mods/"@, mod_id@, ""@);
        },
        _ => {},
    }
}

#[verifier::spinoff_prover]
#[verifier::rlimit(100)]
proof fn lemma_path_get_mod_comment(r: Route)
    requires
        r is GetModComment,
    ensures
        route_path_facts(r),
{
    match r {
        Route::GetModComment { game_id, mod_id, comment_id } => {
            lemma_text_18();
            lemma_text_32();
            lemma_text_3();
            lemma_text_0();
            lemma_seg3("/games/"@, game_id@, "/mods/"@, mod_id@, "/comments/"@, comment_id@, ""@);
        },
        _ => {},
    }
}

#[verifier::spinoff_prover]
#[verifier::rlimit(100)]
proof fn lemma_path_get_mod_comments(r: Route)
    requires
        r is GetModComments,
    ensures
        route_path_facts(r),
{
    match r {
        Route::GetModComments { game_id, mod_id } => {
            lemma_text_18();
            lemma_text_32();
            lemma_text_2();
            lemma_seg2("/games/"@, game_id@, "/mods/"@, mod_id@, "/comments"@);
        },
        _ => {},
    }
}

#[verifier::spinoff_prover]
#[verifier::rlimit(100)]
proof fn lemma_path_get_mod_dependencies(r: Route)
    requires
        r is GetModDependencies,
    ensures
        route_path_facts(r),
{
    match r {
        Route::GetModDependencies { game_id, mod_id, recursive } => {
            lemma_text_18();
            lemma_text_32();
            lemma_text_4();
            lemma_text_48();
            lemma_seg2("/games/"@, game_id@, "/mods/"@, mod_id@, "/dependencies"@);
            lemma_query(seg2("/games/"@, game_id@ as nat, "/mods/"@, mod_id@ as nat, "/dependencies"@), "?recursive="@, recursive);
        },
        _ => {},
    }
}

#[verifier::spinoff_prover]
#[verifier::rlimit(100)]
proof fn lemma_path_get_mod_events(r: Route)
    requires
        r is GetModEvents,
    ensures
        route_path_facts(r),
{
    match r {
        Route::GetModEvents { game_id, mod_id } => {
            lemma_text_18();
            lemma_text_32();
            lemma_text_5();
            lemma_seg2("/games/"@, game_id@, "/mods/"@, mod_id@, "/events"@);
        },
        _ => {},
    }
}

#[verifier::spinoff_prover]
#[verifier::rlimit(100)]
proof fn lemma_path_get_mod_metadata(r: Route)
    requires
        r is GetModMetadata,
    ensures
        route_path_facts(r),
{
    match r {
        Route::GetModMetadata { game_id, mod_id } => {
            lemma_text_18();
            lemma_text_32();
            lemma_text_30();
            lemma_seg2("/games/"@, game_id@, "/mods/"@, mod_id@, "/metadatakvp"@);
        },
        _ => {},
    }
}

#[verifier::spinoff_prover]
#[verifier::rlimit(100)]
proof fn lemma_path_get_mod_stats(r: Route)
    requires
        r is GetModStats,
    ensures
        route_path_facts(r),
{
    match r {
        Route::GetModStats { game_id, mod_id } => {
            lemma_text_18();
            lemma_text_32();
            lemma_text_42();
            lemma_seg2("/games/"@, game_id@, "/mods/"@, mod_id@, "/stats"@);
        },
        _ => {},
    }
}

#[verifier::spinoff_prover]
#[verifier::rlimit(100)]
proof fn lemma_path_get_mod_tags(r: Route)
    requires
        r is GetModTags,
    ensures
        route_path_facts(r),
{
    match r {
        Route::GetModTags { game_id, mod_id } => {
            lemma_text_18();
            lemma_text_32();
            lemma_text_44();
            lemma_seg2("/games/"@, game_id@, "/mods/"@, mod_id@, "/tags"@);
        },
        _ => {},
    }
}

#[verifier::spinoff_prover]
#[verifier::rlimit(100)]
proof fn lemma_path_get_mod_team_members(r: Route)
    requires
        r is GetModTeamMembers,
    ensures
        route_path_facts(r),
{
    match r {
        Route::GetModTeamMembers { game_id, mod_id } => {
            lemma_text_18();
            lemma_text_32();
            lemma_text_46();
            lemma_seg2("/games/"@, game_id@, "/mods/"@, mod_id@, "/team"@);
        },
        _ => {},
    }
}

#[verifier::spinoff_prover]
#[verifier::rlimit(100)]
proof fn lemma_path_get_mods(r: Route)
    requires
        r is GetMods,
    ensures
        route_path_facts(r),
{
    match r {
        Route::GetMods { game_id } => {
            lemma_text_18();
            lemma_text_31();
            lemma_seg1("/games/"@, game_id@, "/mods"@);
        },
        _ => {},
    }
}

#[verifier::spinoff_prover]
#[verifier::rlimit(100)]
proof fn lemma_path_get_mods_events(r: Route)
    requires
        r is GetModsEvents,
    ensures
        route_path_facts(r),
{
    match r {
        Route::GetModsEvents { game_id } => {
            lemma_text_18();
            lemma_text_33();
            lemma_seg1("/games/"@, game_id@, "/mods/events"@);
        },
        _ => {},
    }
}

#[verifier::spinoff_prover]
#[verifier::rlimit(100)]
proof fn lemma_path_get_mods_stats(r: Route)
    requires
        r is GetModsStats,
    ensures
        route_path_facts(r),
{
    match r {
        Route::GetModsStats { game_id } => {
            lemma_text_18();
            lemma_text_34();
            lemma_seg1("/games/"@, game_id@, "/mods/stats"@);
        },
        _ => {},
    }
}

#[verifier::spinoff_prover]
#[verifier::rlimit(100)]
proof fn lemma_path_manage_platform_status(r: Route)
    requires
        r is ManagePlatformStatus,
    ensures
        route_path_facts(r),
{
    match r {
        Route::ManagePlatformStatus { game_id, mod_id, file_id } => {
            lemma_text_18();
            lemma_text_32();
            lemma_text_16();
            lemma_text_39();
            lemma_seg3("/games/"@, game_id@, "/mods/"@, mod_id@, "/files/"@, file_id@, "/platforms"@);
        },
        _ => {},
    }
}

#[verifier::spinoff_prover]
#[verifier::rlimit(100)]
proof fn lemma_path_mute_user(r: Route)
    requires
        r is MuteUser,
    ensures
        route_path_facts(r),
{
    match r {
        Route::MuteUser { user_id } => {
            lemma_text_47();
            lemma_text_35();
            lemma_seg1("/users/"@, user_id@, "/mute"@);
        },
        _ => {},
    }
}

#[verifier::spinoff_prover]
#[verifier::rlimit(100)]
proof fn lemma_path_o_auth_email_request(r: Route)
    requires
        r is OAuthEmailRequest,
    ensures
        route_path_facts(r),
{
    match r {
        Route::OAuthEmailRequest => {
            lemma_text_37();
        },
        _ => {},
    }
}

#[verifier::spinoff_prover]
#[verifier::rlimit(100)]
proof fn lemma_path_o_auth_email_exchange(r: Route)
    requires
        r is OAuthEmailExchange,
    ensures
        route_path_facts(r),
{
    match r {
        Route::OAuthEmailExchange => {
            lemma_text_36();
        },
        _ => {},
    }
}

#[verifier::spinoff_prover]
#[verifier::rlimit(100)]
proof fn lemma_path_o_auth_logout(r: Route)
    requires
        r is OAuthLogout,
    ensures
        route_path_facts(r),
{
    match r {
        Route::OAuthLogout => {
            lemma_text_38();
        },
        _ => {},
    }
}

#[verifier::spinoff_prover]
#[verifier::rlimit(100)]
proof fn lemma_path_rate_mod(r: Route)
    requires
        r is RateMod,
    ensures
        route_path_facts(r),
{
    match r {
        Route::RateMod { game_id, mod_id } => {
            lemma_text_18();
            lemma_text_32();
            lemma_text_40();
            lemma_seg2("/games/"@, game_id@, "/mods/"@, mod_id@, "/ratings"@);
        },
        _ => {},
    }
}

#[verifier::spinoff_prover]
#[verifier::rlimit(100)]
proof fn lemma_path_rename_game_tags(r: Route)
    requires
        r is RenameGameTags,
    ensures
        route_path_facts(r),
{
    match r {
        Route::RenameGameTags { game_id } => {
            lemma_text_18();
            lemma_text_45();
            lemma_seg1("/games/"@, game_id@, "/tags/rename"@);
        },
        _ => {},
    }
}

#[verifier::spinoff_prover]
#[verifier::rlimit(100)]
proof fn lemma_path_reorder_mod_media(r: Route)
    requires
        r is ReorderModMedia,
    ensures
        route_path_facts(r),
{
    match r {
        Route::ReorderModMedia { game_id, mod_id } => {
            lemma_text_18();
            lemma_text_32();
            lemma_text_29();
            lemma_seg2("/games/"@, game_id@, "/mods/"@, mod_id@, "/media/reorder"@);
        },
        _ => {},
    }
}

#[verifier::spinoff_prover]
#[verifier::rlimit(100)]
proof fn lemma_path_submit_report(r: Route)
    requires
        r is SubmitReport,
    ensures
        route_path_facts(r),
{
    match r {
        Route::SubmitReport => {
            lemma_text_41();
        },
        _ => {},
    }
}

#[verifier::spinoff_prover]
#[verifier::rlimit(100)]
proof fn lemma_path_subscribe_to_mod(r: Route)
    requires
        r is SubscribeToMod,
    ensures
        route_path_facts(r),
{
    match r {
        Route::SubscribeToMod { game_id, mod_id } => {
            lemma_text_18();
            lemma_text_32();
            lemma_text_43();
            lemma_seg2("/games/"@, game_id@, "/mods/"@, mod_id@, "/subscribe"@);
        },
        _ => {},
    }
}

#[verifier::spinoff_prover]
#[verifier::rlimit(100)]
proof fn lemma_path_terms(r: Route)
    requires
        r is Terms,
    ensures
        route_path_facts(r),
{
    match r {
        Route::Terms => {
            lemma_text_1();
        },
        _ => {},
    }
}

#[verifier::spinoff_prover]
#[verifier::rlimit(100)]
proof fn lemma_path_unmute_user(r: Route)
    requires
        r is UnmuteUser,
    ensures
        route_path_facts(r),
{
    match r {
        Route::UnmuteUser { user_id } => {
            lemma_text_47();
            lemma_text_35();
            lemma_seg1("/users/"@, user_id@, "/mute"@);
        },
        _ => {},
    }
}

#[verifier::spinoff_prover]
#[verifier::rlimit(100)]
proof fn lemma_path_unsubscribe_from_mod(r: Route)
    requires
        r is UnsubscribeFromMod,
    ensures
        route_path_facts(r),
{
    match r {
        Route::UnsubscribeFromMod { game_id, mod_id } => {
            lemma_text_18();
            lemma_text_32();
            lemma_text_43();
            lemma_seg2("/games/"@, game_id@, "/mods/"@, mod_id@, "/subscribe"@);
        },
        _ => {},
    }
}

#[verifier::spinoff_prover]
#[verifier::rlimit(100)]
proof fn lemma_path_update_mod_comment_karma(r: Route)
    requires
        r is UpdateModCommentKarma,
    ensures
        route_path_facts(r),
{
    match r {
        Route::UpdateModCommentKarma { game_id, mod_id, comment_id } => {
            lemma_text_18();
            lemma_text_32();
            lemma_text_3();
            lemma_text_19();
            lemma_seg3("/games/"@, game_id@, "/mods/"@, mod_id@, "/comments/"@, comment_id@, "/karma"@);
        },
        _ => {},
    }
}

#[verifier::spinoff_prover]
#[verifier::rlimit(100)]
proof fn lemma_path_user_authenticated(r: Route)
    requires
        r is UserAuthenticated,
    ensures
        route_path_facts(r),
{
    match r {
        Route::UserAuthenticated => {
            lemma_text_20();
        },
        _ => {},
    }
}

#[verifier::spinoff_prover]
#[verifier::rlimit(100)]
proof fn lemma_path_user_events(r: Route)
    requires
        r is UserEvents,
    ensures
        route_path_facts(r),
{
    match r {
        Route::UserEvents => {
            lemma_text_21();
        },
        _ => {},
    }
}

#[verifier::spinoff_prover]
#[verifier::rlimit(100)]
proof fn lemma_path_user_files(r: Route)
    requires
        r is UserFiles,
    ensures
        route_path_facts(r),
{
    match r {
        Route::UserFiles => {
            lemma_text_22();
        },
        _ => {},
    }
}

#[verifier::spinoff_prover]
#[verifier::rlimit(100)]
proof fn lemma_path_user_games(r: Route)
    requires
        r is UserGames,
    ensures
        route_path_facts(r),
{
    match r {
        Route::UserGames => {
            lemma_text_23();
        },
        _ => {},
    }
}

#[verifier::spinoff_prover]
#[verifier::rlimit(100)]
proof fn lemma_path_user_mods(r: Route)
    requires
        r is UserMods,
    ensures
        route_path_facts(r),
{
    match r {
        Route::UserMods => {
            lemma_text_24();
        },
        _ => {},
    }
}

#[verifier::spinoff_prover]
#[verifier::rlimit(100)]
proof fn lemma_path_user_muted(r: Route)
    requires
        r is UserMuted,
    ensures
        route_path_facts(r),
{
    match r {
        Route::UserMuted => {
            lemma_text_27();
        },
        _ => {},
    }
}

#[verifier::spinoff_prover]
#[verifier::rlimit(100)]
proof fn lemma_path_user_ratings(r: Route)
    requires
        r is UserRatings,
    ensures
        route_path_facts(r),
{
    match r {
        Route::UserRatings => {
            lemma_text_25();
        },
        _ => {},
    }
}

#[verifier::spinoff_prover]
#[verifier::rlimit(100)]
proof fn lemma_path_user_subscriptions(r: Route)
    requires
        r is UserSubscriptions,
    ensures
        route_path_facts(r),
{
    match r {
        Route::UserSubscriptions => {
            lemma_text_26();
        },
        _ => {},
    }
}

} // verus!
