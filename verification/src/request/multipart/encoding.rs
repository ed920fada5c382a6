//! Percent-encoding of field names in multipart headers.
use std::borrow::Cow;

use vstd::prelude::*;
use vstd::string::*;
use vstd::utf8::*;

verus! {

broadcast use vstd::utf8::is_ascii_chars_encode_utf8;

/// The byte sets a field name can be percent-encoded with.
#[derive(Clone, Copy, Debug, PartialEq, Eq, Structural)]
pub enum EncodeSet {
    /// The path-segment set of the URL standard.
    PathSegment,
    /// The complement of RFC 8187's `attr-char`.
    AttrChar,
}

/// The C0 control bytes and DEL.
pub open spec fn is_control(b: u8) -> bool {
    b <= 0x1f || b == 0x7f
}

/// ASCII letters and digits.
pub open spec fn is_alphanumeric(b: u8) -> bool {
    ('a' as u8 <= b <= 'z' as u8) || ('A' as u8 <= b <= 'Z' as u8) || ('0' as u8 <= b <= '9'
        as u8)
}

/// The fragment percent-encode set of the URL standard.
pub open spec fn in_fragment_set(b: u8) -> bool {
    is_control(b) || b == ' ' as u8 || b == '"' as u8 || b == '<' as u8 || b == '>' as u8 || b
        == '`' as u8
}

/// The path percent-encode set of the URL standard.
pub open spec fn in_path_set(b: u8) -> bool {
    in_fragment_set(b) || b == '#' as u8 || b == '?' as u8 || b == '{' as u8 || b == '}' as u8
}

/// The path set with `/` and `%` added.
pub open spec fn in_path_segment_set(b: u8) -> bool {
    in_path_set(b) || b == '/' as u8 || b == '%' as u8
}

/// Every ASCII byte but the letters, the digits and the other `attr-char`s
/// of RFC 8187 (`!#$&+-.^_`|~`).
pub open spec fn in_attr_char_set(b: u8) -> bool {
    b < 0x80 && !is_alphanumeric(b) && !(b == '!' as u8 || b == '#' as u8 || b == '$' as u8 || b
        == '&' as u8 || b == '+' as u8 || b == '-' as u8 || b == '.' as u8 || b == '^' as u8 || b
        == '_' as u8 || b == '`' as u8 || b == '|' as u8 || b == '~' as u8)
}

/// The ASCII bytes in the set.
pub open spec fn in_set(set: EncodeSet, b: u8) -> bool {
    match set {
        EncodeSet::PathSegment => in_path_segment_set(b),
        EncodeSet::AttrChar => in_attr_char_set(b),
    }
}

/// A byte is written as `%XX` when it is not ASCII or is in the set.
pub open spec fn is_encoded(set: EncodeSet, b: u8) -> bool {
    b >= 0x80 || in_set(set, b)
}

/// The upper-case hexadecimal digit of a number below 16.
pub open spec fn hex_upper(n: nat) -> char {
    if n < 10 {
        ((n + '0' as nat) as u8) as char
    } else {
        ((n - 10 + 'A' as nat) as u8) as char
    }
}

/// `%` followed by the two upper-case hexadecimal digits of the byte.
pub open spec fn escaped_byte(b: u8) -> Seq<char> {
    seq!['%', hex_upper((b / 16) as nat), hex_upper((b % 16) as nat)]
}

/// The percent-encoding of a byte sequence: each encoded byte as `%XX`,
/// every other byte as the ASCII character it is.
pub open spec fn percent_encoded(set: EncodeSet, bytes: Seq<u8>) -> Seq<char>
    decreases bytes.len(),
{
    if bytes.len() == 0 {
        Seq::empty()
    } else {
        let b = bytes.last();
        percent_encoded(set, bytes.drop_last()) + if is_encoded(set, b) {
            escaped_byte(b)
        } else {
            seq![b as char]
        }
    }
}

/// Whether the encoding of `bytes` stays borrowed: when no byte is encoded,
/// or when there is only one byte.
pub open spec fn stays_borrowed(set: EncodeSet, bytes: Seq<u8>) -> bool {
    (forall|i: int| 0 <= i < bytes.len() ==> !is_encoded(set, #[trigger] bytes[i])) || bytes.len()
        == 1
}

/// `percent_encoding::percent_encode_byte`.
///
/// Its source: the three characters `%XX` from a table of every byte, with
/// upper-case hexadecimal digits.
#[verifier::external_body]
fn percent_encode_byte(b: u8) -> (r: &'static str)
    ensures
        r@ == escaped_byte(b),
{
    percent_encoding::percent_encode_byte(b)
}

/// `String::push`: appends one character.
#[verifier::external_body]
fn push_char(s: &mut String, c: char)
    ensures
        final(s)@ == old(s)@.push(c),
{
    s.push(c)
}

fn is_encoded_byte(set: EncodeSet, b: u8) -> (r: bool)
    ensures
        r == is_encoded(set, b),
{
    if b >= 0x80 {
        return true;
    }
    let control = b <= 0x1f || b == 0x7f;
    match set {
        EncodeSet::PathSegment => {
            control || b == (' ' as u8) || b == ('"' as u8) || b == ('<' as u8) || b == ('>' as u8) || b == ('`' as u8) || b == ('#' as u8)
                || b == ('?' as u8) || b == ('{' as u8) || b == ('}' as u8) || b == ('/' as u8) || b == ('%' as u8)
        },
        EncodeSet::AttrChar => {
            let alnum = (('a' as u8) <= b && b <= ('z' as u8)) || (('A' as u8) <= b && b <= ('Z' as u8)) || (('0' as u8) <= b && b
                <= ('9' as u8));
            let attr = b == ('!' as u8) || b == ('#' as u8) || b == ('$' as u8) || b == ('&' as u8) || b == ('+' as u8) || b == ('-' as u8)
                || b == ('.' as u8) || b == ('^' as u8) || b == ('_' as u8) || b == ('`' as u8) || b == ('|' as u8) || b == ('~' as u8);
            !alnum && !attr
        },
    }
}

/// When no byte of a string's UTF-8 encoding is above 0x7f, every character
/// is ASCII.
proof fn lemma_low_bytes_ascii(chars: Seq<char>)
    requires
        forall|i: int| 0 <= i < encode_utf8(chars).len() ==> #[trigger] encode_utf8(chars)[i] < 0x80,
    ensures
        is_ascii_chars(chars),
    decreases chars.len(),
{
    if chars.len() > 0 {
        let c = chars[0] as u32;
        let rest = chars.drop_first();
        let first = encode_scalar(c);
        assert(encode_utf8(chars) == first + encode_utf8(rest));
        assert(encode_utf8(chars)[0] == first[0]);
        assert(has_width_1_encoding(c)) by {
            if !has_width_1_encoding(c) {
                assert(leading_byte_width_2(c) >= 0x80) by (bit_vector);
                assert(leading_byte_width_3(c) >= 0x80) by (bit_vector);
                assert(leading_byte_width_4(c) >= 0x80) by (bit_vector);
            }
        }
        assert forall|i: int| 0 <= i < encode_utf8(rest).len() implies #[trigger] encode_utf8(
            rest,
        )[i] < 0x80 by {
            assert(encode_utf8(chars)[i + first.len()] == encode_utf8(rest)[i]);
        }
        lemma_low_bytes_ascii(rest);
        assert forall|i: int| 0 <= i < chars.len() implies '\0' <= #[trigger] chars[i]
            <= '\u{7f}' by {
            if i > 0 {
                assert(chars[i] == rest[i - 1]);
            } else {
                assert(chars[0] as u32 <= 0x7f);
                let u: u32 = chars[0] as u32;
                char_u32_cast(chars[0], u);
                assert((u as char) <= '\u{7f}');
                assert(chars[0] <= '\u{7f}');
            }
        }
    }
}

/// The percent-encoding of a string's UTF-8 encoding: `Cow::Borrowed` when no
/// byte is encoded (the input itself) or when the input is a single encoded
/// byte (its `%XX`), `Cow::Owned` otherwise.
pub fn percent_encode(input: &str, set: EncodeSet) -> (r: Cow<'_, str>)
    ensures
        r@ == percent_encoded(set, input.spec_bytes()),
        r is Borrowed <==> stays_borrowed(set, input.spec_bytes()),
{
    let bytes = input.as_bytes();
    let ghost bs = input.spec_bytes();
    let mut out = String::new();
    let mut all_kept = true;
    let mut i: usize = 0;
    while i < bytes.len()
        invariant
            bytes@ == bs,
            i <= bs.len(),
            out@ == percent_encoded(set, bs.take(i as int)),
            all_kept <==> forall|j: int| 0 <= j < i ==> !is_encoded(set, #[trigger] bs[j]),
        decreases bs.len() - i,
    {
        let b = bytes[i];
        assert(bs.take(i + 1).drop_last() =~= bs.take(i as int));
        if is_encoded_byte(set, b) {
            out.append(percent_encode_byte(b));
            all_kept = false;
        } else {
            push_char(&mut out, b as char);
        }
        i = i + 1;
    }
    assert(bs.take(bs.len() as int) =~= bs);
    if all_kept {
        proof {
            lemma_low_bytes_ascii(input@);
            lemma_all_kept(set, input@);
        }
        Cow::Borrowed(input)
    } else if bytes.len() == 1 {
        proof {
            assert(bs.drop_last() =~= Seq::<u8>::empty());
            let j = choose|j: int| 0 <= j < 1 && is_encoded(set, #[trigger] bs[j]);
            assert(j == 0);
            assert(is_encoded(set, bs.last()));
            assert(percent_encoded(set, bs.drop_last()) =~= Seq::<char>::empty());
            assert(percent_encoded(set, bs) =~= escaped_byte(bs[0]));
        }
        Cow::Borrowed(percent_encode_byte(bytes[0]))
    } else {
        Cow::Owned(out)
    }
}

/// An ASCII string none of whose bytes is encoded encodes to itself.
proof fn lemma_all_kept(set: EncodeSet, chars: Seq<char>)
    requires
        is_ascii_chars(chars),
        forall|j: int|
            0 <= j < encode_utf8(chars).len() ==> !is_encoded(set, #[trigger] encode_utf8(chars)[j]),
    ensures
        percent_encoded(set, encode_utf8(chars)) == chars,
    decreases chars.len(),
{
    let bs = encode_utf8(chars);
    assert(chars.len() == bs.len());
    if chars.len() > 0 {
        let prefix = chars.drop_last();
        assert(is_ascii_chars(prefix));
        assert(encode_utf8(prefix).len() == prefix.len());
        assert forall|j: int| 0 <= j < prefix.len() implies #[trigger] encode_utf8(prefix)[j]
            == bs[j] by {
            assert(prefix[j] == chars[j]);
        }
        assert(encode_utf8(prefix) =~= bs.drop_last());
        lemma_all_kept(set, prefix);
        let c = chars.last();
        assert(bs.last() == c as u8);
        assert((c as u8) as char == c) by {
            assert('\0' <= chars[chars.len() - 1] <= '\u{7f}');
        }
        assert(percent_encoded(set, bs) =~= chars);
    }
}

/// The input as it is.
pub fn percent_encode_noop(input: &str) -> (r: Cow<'_, str>)
    ensures
        r == Cow::Borrowed(input),
{
    Cow::Borrowed(input)
}

/// Percent-encodes with the path-segment set of the URL standard.
pub fn percent_encode_path_segment(input: &str) -> (r: Cow<'_, str>)
    ensures
        r@ == percent_encoded(EncodeSet::PathSegment, input.spec_bytes()),
        r is Borrowed <==> stays_borrowed(EncodeSet::PathSegment, input.spec_bytes()),
{
    percent_encode(input, EncodeSet::PathSegment)
}

/// Percent-encodes with the complement of RFC 8187's `attr-char`.
pub fn percent_encode_attr_char(input: &str) -> (r: Cow<'_, str>)
    ensures
        r@ == percent_encoded(EncodeSet::AttrChar, input.spec_bytes()),
        r is Borrowed <==> stays_borrowed(EncodeSet::AttrChar, input.spec_bytes()),
{
    percent_encode(input, EncodeSet::AttrChar)
}

/// Which bytes each set encodes, over every byte. The path-segment set is
/// the URL standard's: every non-ASCII byte, the controls 0x00 to 0x1f and
/// 0x7f, space, `"`, `<`, `>`, `` ` ``, `#`, `?`, `{`, `}`, `/` and `%`. The
/// attr-char set is every byte but the ASCII letters and digits and
/// `!#$&+-.^_`|~`.
pub proof fn lemma_encode_sets(b: u8)
    ensures
        is_encoded(EncodeSet::PathSegment, b) <==> (b >= 0x80 || b <= 0x1f || b == 0x7f || b
            == 0x20 || b == 0x22 || b == 0x3c || b == 0x3e || b == 0x60 || b == 0x23 || b == 0x3f
            || b == 0x7b || b == 0x7d || b == 0x2f || b == 0x25),
        is_encoded(EncodeSet::AttrChar, b) <==> !(0x30 <= b <= 0x39 || 0x41 <= b <= 0x5a || 0x61
            <= b <= 0x7a || b == 0x21 || b == 0x23 || b == 0x24 || b == 0x26 || b == 0x2b || b
            == 0x2d || b == 0x2e || b == 0x5e || b == 0x5f || b == 0x60 || b == 0x7c || b == 0x7e),
{
}

/// The characters that neither set encodes: ASCII letters and digits, `-`,
/// `.`, `_` and `~`.
pub open spec fn is_unreserved(c: char) -> bool {
    ||| 'a' <= c <= 'z'
    ||| 'A' <= c <= 'Z'
    ||| '0' <= c <= '9'
    ||| c == '-'
    ||| c == '.'
    ||| c == '_'
    ||| c == '~'
}

/// A name made of letters, digits, `-`, `.`, `_` and `~` is written as it
/// is, in either set, and the encoding stays borrowed.
pub proof fn lemma_unreserved_kept(set: EncodeSet, name: Seq<char>)
    requires
        forall|i: int| 0 <= i < name.len() ==> is_unreserved(#[trigger] name[i]),
    ensures
        percent_encoded(set, encode_utf8(name)) == name,
        stays_borrowed(set, encode_utf8(name)),
{
    assert(is_ascii_chars(name)) by {
        assert forall|i: int| 0 <= i < name.len() implies '\0' <= #[trigger] name[i] <= '\u{7f}' by {
            assert(is_unreserved(name[i]));
        }
    }
    is_ascii_chars_encode_utf8(name);
    let bs = encode_utf8(name);
    assert forall|j: int| 0 <= j < bs.len() implies !is_encoded(set, #[trigger] bs[j]) by {
        let c = name[j];
        assert(is_unreserved(c));
        assert(c as u8 == bs[j]);
        lemma_encode_sets(bs[j]);
    }
    lemma_all_kept(set, name);
}

/// A byte is escaped as `%` followed by its two hexadecimal digits, in
/// upper case: `0` to `9` for 0 to 9, `A` to `F` for 10 to 15.
pub proof fn lemma_escaped_byte(b: u8)
    ensures
        escaped_byte(b).len() == 3,
        escaped_byte(b)[0] == '%',
        forall|d: nat| d < 10 ==> #[trigger] hex_upper(d) as u32 == 0x30 + d,
        forall|d: nat| 10 <= d < 16 ==> #[trigger] hex_upper(d) as u32 == 0x41 + (d - 10),
        escaped_byte(b)[1] == hex_upper((b / 16) as nat),
        escaped_byte(b)[2] == hex_upper((b % 16) as nat),
{
}

} // verus!
