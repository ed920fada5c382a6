//! The `application/x-www-form-urlencoded` encoding of name-value pairs.
use vstd::prelude::*;
use vstd::string::*;

use crate::request::multipart::encoding::escaped_byte;

verus! {

/// The bytes that the form encoding writes as they are: ASCII letters and
/// digits and `*-._`.
pub open spec fn form_unchanged(b: u8) -> bool {
    ||| b == '*' as u8
    ||| b == '-' as u8
    ||| b == '.' as u8
    ||| b == '_' as u8
    ||| '0' as u8 <= b <= '9' as u8
    ||| 'A' as u8 <= b <= 'Z' as u8
    ||| 'a' as u8 <= b <= 'z' as u8
}

/// The form encoding of bytes: unchanged bytes as they are, a space as `+`,
/// every other byte as `%XX`.
pub open spec fn form_encoded(bytes: Seq<u8>) -> Seq<char>
    decreases bytes.len(),
{
    if bytes.len() == 0 {
        Seq::empty()
    } else {
        let b = bytes.last();
        form_encoded(bytes.drop_last()) + if form_unchanged(b) {
            seq![b as char]
        } else if b == ' ' as u8 {
            seq!['+']
        } else {
            escaped_byte(b)
        }
    }
}

/// What appending the pair `name=value` to the form text `target` adds: a
/// `&` when the text is not empty, then the encoded name, `=` and the
/// encoded value.
pub open spec fn form_pair(target: Seq<char>, name: Seq<u8>, value: Seq<u8>) -> Seq<char> {
    (if target.len() > 0 {
        seq!['&']
    } else {
        Seq::empty()
    }) + form_encoded(name) + seq!['='] + form_encoded(value)
}

/// `form_urlencoded::Serializer::append_pair` on a serializer that starts at
/// the beginning of `target`.
///
/// Its source: a `&` when the target is not empty, then the name, `=` and
/// the value, each byte of which is written unchanged when it is an ASCII
/// letter or digit or one of `*-._`, as `+` when it is a space, and as `%XX`
/// (upper-case hexadecimal) otherwise.
#[verifier::external_body]
pub(crate) fn form_append_pair(target: &mut String, name: &str, value: &str)
    ensures
        final(target)@ == old(target)@ + form_pair(
            old(target)@,
            name.spec_bytes(),
            value.spec_bytes(),
        ),
{
    url::form_urlencoded::Serializer::new(target).append_pair(name, value);
}

/// How the form encoding writes every byte: ASCII letters, digits and
/// `*-._` as they are, a space as `+`, every other byte as `%XX`.
pub proof fn lemma_form_byte(b: u8)
    ensures
        form_unchanged(b) <==> (b == 0x2a || b == 0x2d || b == 0x2e || b == 0x5f || (0x30 <= b
            <= 0x39) || (0x41 <= b <= 0x5a) || (0x61 <= b <= 0x7a)),
        form_unchanged(b) ==> form_encoded(seq![b]) == seq![b as char],
        b == 0x20 ==> form_encoded(seq![b]) == seq!['+'],
        !form_unchanged(b) && b != 0x20 ==> form_encoded(seq![b]) == escaped_byte(b),
{
    let s = seq![b];
    assert(s.drop_last() =~= Seq::<u8>::empty());
    assert(form_encoded(Seq::<u8>::empty()) =~= Seq::<char>::empty());
}

} // verus!
