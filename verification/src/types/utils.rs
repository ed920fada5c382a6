//! A short string stored inline in a fixed-size byte array.
use vstd::array::*;
use vstd::prelude::*;
use vstd::string::*;
use vstd::utf8::*;

verus! {

/// The bytes with every trailing NUL byte removed.
pub open spec fn trim_nul(bytes: Seq<u8>) -> Seq<u8>
    decreases bytes.len(),
{
    if bytes.len() > 0 && bytes.last() == 0 {
        trim_nul(bytes.drop_last())
    } else {
        bytes
    }
}

/// `text` followed by NUL bytes up to a length of `n`.
pub open spec fn nul_padded(text: Seq<u8>, n: nat) -> Seq<u8> {
    text + Seq::new((n - text.len()) as nat, |i: int| 0u8)
}

/// The bytes are empty or do not end in a NUL byte.
pub open spec fn no_trailing_nul(bytes: Seq<u8>) -> bool {
    bytes.len() == 0 || bytes.last() != 0
}

/// Removing the NUL padding of a padded text gives back the text, when the
/// text does not end in a NUL byte itself.
pub proof fn lemma_trim_nul_padded(text: Seq<u8>, n: nat)
    requires
        text.len() <= n,
        no_trailing_nul(text),
    ensures
        trim_nul(nul_padded(text, n)) == text,
    decreases n - text.len(),
{
    let p = nul_padded(text, n);
    if n == text.len() {
        assert(p =~= text);
        if text.len() > 0 {
            assert(text.last() != 0);
        }
    } else {
        assert(p.drop_last() =~= nul_padded(text, (n - 1) as nat));
        lemma_trim_nul_padded(text, (n - 1) as nat);
    }
}

/// A sequence of NUL bytes is valid UTF-8.
proof fn lemma_nul_valid(k: nat)
    ensures
        valid_utf8(Seq::new(k, |i: int| 0u8)),
{
    let z = Seq::new(k, |i: int| 0u8);
    assert(z.subrange(0, 0) =~= Seq::<u8>::empty());
    assert(valid_utf8(Seq::<u8>::empty()));
    assert(partial_valid_utf8(z, 0));
    partial_valid_utf8_extend_ascii_block(z, 0, k as int);
    assert(z.subrange(0, k as int) =~= z);
}

/// `std::str::from_utf8`: the bytes as a string slice when they are valid
/// UTF-8, and `None` (the `Utf8Error` case) when they are not.
#[verifier::external_body]
fn str_from_utf8(bytes: &[u8]) -> (r: Option<&str>)
    ensures
        r is Some <==> valid_utf8(bytes@),
        r matches Some(s) ==> s.spec_bytes() == bytes@,
{
    std::str::from_utf8(bytes).ok()
}

/// A string of at most `LENGTH` bytes stored inline, padded with NUL bytes.
#[derive(Clone, Copy, Debug, Eq, PartialEq)]
pub struct SmallStr<const LENGTH: usize> {
    bytes: [u8; LENGTH],
}

impl<const LENGTH: usize> View for SmallStr<LENGTH> {
    type V = Seq<u8>;

    /// All `LENGTH` bytes, padding included.
    closed spec fn view(&self) -> Seq<u8> {
        self.bytes@
    }
}

impl<const LENGTH: usize> SmallStr<LENGTH> {
    #[verifier::type_invariant]
    spec fn valid(self) -> bool {
        valid_utf8(self.bytes@)
    }

    /// The text of the string: its bytes without the NUL padding.
    pub open spec fn text(self) -> Seq<u8> {
        trim_nul(self@)
    }

    /// Store `input` if it fits, else `None`.
    pub fn from_str(input: &str) -> (r: Option<Self>)
        ensures
            r is None <==> input.spec_bytes().len() > LENGTH,
            r matches Some(s) ==> s@ == nul_padded(input.spec_bytes(), LENGTH as nat),
    {
        let b = input.as_bytes();
        if b.len() > LENGTH {
            return None;
        }
        proof {
            encode_utf8_valid_utf8(input@);
        }
        Some(Self::from_bytes(b))
    }

    /// Store the bytes of a string that fits.
    pub fn from_bytes(input: &[u8]) -> (r: Self)
        requires
            input@.len() <= LENGTH,
            valid_utf8(input@),
        ensures
            r@ == nul_padded(input@, LENGTH as nat),
    {
        let mut bytes: [u8; LENGTH] = array_fill_for_copy_types(0u8);
        let mut idx: usize = 0;
        while idx < input.len()
            invariant
                input@.len() <= LENGTH,
                idx <= input@.len(),
                bytes@.len() == LENGTH,
                forall|i: int| 0 <= i < idx ==> bytes@[i] == input@[i],
                forall|i: int| idx <= i < LENGTH ==> bytes@[i] == 0u8,
            decreases input@.len() - idx,
        {
            bytes[idx] = input[idx];
            idx = idx + 1;
        }
        proof {
            let pad = Seq::new((LENGTH - input@.len()) as nat, |i: int| 0u8);
            assert(bytes@ =~= nul_padded(input@, LENGTH as nat));
            lemma_nul_valid((LENGTH - input@.len()) as nat);
            valid_utf8_concat(input@, pad);
        }
        Self { bytes }
    }

    /// The stored text as a string slice.
    pub fn as_str(&self) -> (r: &str)
        ensures
            r.spec_bytes() == self.text(),
            r@ == decode_utf8(self.text()),
    {
        proof {
            use_type_invariant(self);
        }
        let s = match str_from_utf8(self.bytes.as_slice()) {
            Some(s) => s,
            None => {
                proof {
                    assert(false);
                }
                ""
            },
        };
        let b = s.as_bytes();
        let mut n: usize = b.len();
        assert(b@.subrange(0, b@.len() as int) =~= b@);
        while n > 0 && b[n - 1] == 0
            invariant
                n <= b@.len(),
                trim_nul(b@.subrange(0, n as int)) == trim_nul(b@),
                forall|i: int| n <= i < b@.len() ==> b@[i] == 0u8,
            decreases n,
        {
            assert(b@.subrange(0, n as int).drop_last() =~= b@.subrange(0, n - 1));
            n = n - 1;
        }
        proof {
            assert(trim_nul(b@.subrange(0, n as int)) == b@.subrange(0, n as int));
            if n == b@.len() {
                is_char_boundary_start_end_of_seq(b@);
            } else {
                is_char_boundary_iff_is_leading_byte(b@, n as int);
            }
        }
        let (head, _tail) = s.split_at(n);
        proof {
            encode_utf8_decode_utf8(head@);
        }
        head
    }
}

/// Why the fields of an object were refused.
#[derive(Clone, Copy, Debug, PartialEq, Eq)]
pub enum FieldError {
    /// The object holds this field twice.
    Duplicate(&'static str),
    /// The object lacks this field.
    Missing(&'static str),
}

/// The index of the first name in `names` equal to `key`.
pub open spec fn first_index(names: Seq<Seq<char>>, key: Seq<char>) -> Option<int>
    decreases names.len(),
{
    if names.len() == 0 {
        None
    } else {
        match first_index(names.drop_last(), key) {
            Some(i) => Some(i),
            None => if names.last() == key {
                Some(names.len() - 1)
            } else {
                None
            },
        }
    }
}

/// The index of the first field not seen yet.
pub open spec fn first_unseen(seen: Seq<bool>) -> Option<int>
    decreases seen.len(),
{
    if seen.len() == 0 {
        None
    } else {
        match first_unseen(seen.drop_last()) {
            Some(i) => Some(i),
            None => if !seen.last() {
                Some(seen.len() - 1)
            } else {
                None
            },
        }
    }
}

proof fn lemma_first_index(names: Seq<Seq<char>>, key: Seq<char>, n: int)
    requires
        0 <= n <= names.len(),
        forall|j: int| 0 <= j < n ==> names[j] != key,
    ensures
        n < names.len() && names[n] == key ==> first_index(names.subrange(0, n + 1), key) == Some(
            n,
        ),
        first_index(names.subrange(0, n), key) is None,
    decreases n,
{
    if n > 0 {
        lemma_first_index(names, key, n - 1);
        assert(names.subrange(0, n).drop_last() =~= names.subrange(0, n - 1));
    }
    if n < names.len() {
        assert(names.subrange(0, n + 1).drop_last() =~= names.subrange(0, n));
    }
}

proof fn lemma_first_unseen(seen: Seq<bool>, n: int)
    requires
        0 <= n <= seen.len(),
        forall|j: int| 0 <= j < n ==> seen[j],
    ensures
        n < seen.len() && !seen[n] ==> first_unseen(seen.subrange(0, n + 1)) == Some(n),
        first_unseen(seen.subrange(0, n)) is None,
    decreases n,
{
    if n > 0 {
        lemma_first_unseen(seen, n - 1);
        assert(seen.subrange(0, n).drop_last() =~= seen.subrange(0, n - 1));
    }
    if n < seen.len() {
        assert(seen.subrange(0, n + 1).drop_last() =~= seen.subrange(0, n));
    }
}

proof fn lemma_first_prefix_none_index(names: Seq<Seq<char>>, key: Seq<char>, n: int)
    requires
        0 <= n <= names.len(),
        first_index(names.subrange(0, n), key) is None,
        forall|j: int| n <= j < names.len() ==> names[j] != key,
    ensures
        first_index(names, key) is None,
    decreases names.len() - n,
{
    if n == names.len() {
        assert(names.subrange(0, n) =~= names);
    } else {
        assert(names.subrange(0, n + 1).drop_last() =~= names.subrange(0, n));
        lemma_first_prefix_none_index(names, key, n + 1);
    }
}

proof fn lemma_first_prefix_some_index(names: Seq<Seq<char>>, key: Seq<char>, n: int, i: int)
    requires
        0 <= n <= names.len(),
        first_index(names.subrange(0, n), key) == Some(i),
    ensures
        first_index(names, key) == Some(i),
    decreases names.len() - n,
{
    if n == names.len() {
        assert(names.subrange(0, n) =~= names);
    } else {
        assert(names.subrange(0, n + 1).drop_last() =~= names.subrange(0, n));
        lemma_first_prefix_some_index(names, key, n + 1, i);
    }
}

proof fn lemma_first_prefix_none_unseen(seen: Seq<bool>, n: int)
    requires
        0 <= n <= seen.len(),
        first_unseen(seen.subrange(0, n)) is None,
        forall|j: int| n <= j < seen.len() ==> seen[j],
    ensures
        first_unseen(seen) is None,
    decreases seen.len() - n,
{
    if n == seen.len() {
        assert(seen.subrange(0, n) =~= seen);
    } else {
        assert(seen.subrange(0, n + 1).drop_last() =~= seen.subrange(0, n));
        lemma_first_prefix_none_unseen(seen, n + 1);
    }
}

proof fn lemma_first_prefix_some_unseen(seen: Seq<bool>, n: int, i: int)
    requires
        0 <= n <= seen.len(),
        first_unseen(seen.subrange(0, n)) == Some(i),
    ensures
        first_unseen(seen) == Some(i),
    decreases seen.len() - n,
{
    if n == seen.len() {
        assert(seen.subrange(0, n) =~= seen);
    } else {
        assert(seen.subrange(0, n + 1).drop_last() =~= seen.subrange(0, n));
        lemma_first_prefix_some_unseen(seen, n + 1, i);
    }
}

/// The field a key names, if any, lies among the known fields.
pub proof fn lemma_first_index_bounds(names: Seq<Seq<char>>, key: Seq<char>)
    ensures
        first_index(names, key) matches Some(i) ==> 0 <= i < names.len() && names[i] == key,
    decreases names.len(),
{
    if names.len() > 0 {
        lemma_first_index_bounds(names.drop_last(), key);
    }
}

/// The keys `keys[a]` and `keys[b]` name the same known field.
pub open spec fn same_field(names: Seq<Seq<char>>, keys: Seq<Seq<char>>, a: int, b: int) -> bool {
    &&& first_index(names, keys[a]) is Some
    &&& first_index(names, keys[a]) == first_index(names, keys[b])
}

/// Some known field is named by two of the keys.
pub open spec fn has_repeated_field(names: Seq<Seq<char>>, keys: Seq<Seq<char>>) -> bool {
    exists|a: int, b: int| 0 <= a < b < keys.len() && #[trigger] same_field(names, keys, a, b)
}

/// Some key names the known field `i`.
pub open spec fn names_field(names: Seq<Seq<char>>, keys: Seq<Seq<char>>, i: int) -> bool {
    exists|j: int| 0 <= j < keys.len() && first_index(names, #[trigger] keys[j]) == Some(i)
}

/// Reading the keys of an object in order, with the fields in `seen` seen
/// before: the fields seen at the end, or the name of the first field met a
/// second time.
pub open spec fn scan(names: Seq<Seq<char>>, seen: Seq<bool>, keys: Seq<Seq<char>>) -> Result<
    Seq<bool>,
    Seq<char>,
>
    decreases keys.len(),
{
    if keys.len() == 0 {
        Ok(seen)
    } else {
        match first_index(names, keys[0]) {
            None => scan(names, seen, keys.drop_first()),
            Some(i) => if seen[i] {
                Err(names[i])
            } else {
                scan(names, seen.update(i, true), keys.drop_first())
            },
        }
    }
}

proof fn lemma_scan(names: Seq<Seq<char>>, seen: Seq<bool>, keys: Seq<Seq<char>>)
    requires
        seen.len() == names.len(),
    ensures
        scan(names, seen, keys) is Err <==> (has_repeated_field(names, keys) || exists|j: int|
            0 <= j < keys.len() && (#[trigger] first_index(names, keys[j])) is Some
                && seen[first_index(names, keys[j])->0]),
        scan(names, seen, keys) matches Ok(s) ==> s.len() == names.len() && forall|i: int|
            0 <= i < names.len() ==> (s[i] <==> seen[i] || names_field(names, keys, i)),
    decreases keys.len(),
{
    if keys.len() > 0 {
        let rest = keys.drop_first();
        lemma_first_index_bounds(names, keys[0]);
        assert forall|j: int| 0 <= j < rest.len() implies rest[j] == keys[j + 1] by {}
        match first_index(names, keys[0]) {
            None => {
                lemma_scan(names, seen, rest);
                if has_repeated_field(names, keys) {
                    let (a, b) = choose|a: int, b: int|
                        0 <= a < b < keys.len() && #[trigger] same_field(names, keys, a, b);
                    assert(a > 0);
                    assert(same_field(names, rest, a - 1, b - 1));
                }
                if has_repeated_field(names, rest) {
                    let (a, b) = choose|a: int, b: int|
                        0 <= a < b < rest.len() && #[trigger] same_field(names, rest, a, b);
                    assert(same_field(names, keys, a + 1, b + 1));
                }
                assert forall|i: int| 0 <= i < names.len() implies (names_field(names, keys, i)
                    <==> names_field(names, rest, i)) by {
                    if names_field(names, keys, i) {
                        let j = choose|j: int|
                            0 <= j < keys.len() && first_index(names, #[trigger] keys[j]) == Some(
                                i,
                            );
                        assert(j > 0);
                        assert(rest[j - 1] == keys[j]);
                    }
                    if names_field(names, rest, i) {
                        let j = choose|j: int|
                            0 <= j < rest.len() && first_index(names, #[trigger] rest[j]) == Some(
                                i,
                            );
                        assert(keys[j + 1] == rest[j]);
                    }
                }
                if exists|j: int|
                    0 <= j < keys.len() && (#[trigger] first_index(names, keys[j])) is Some
                        && seen[first_index(names, keys[j])->0] {
                    let j = choose|j: int|
                        0 <= j < keys.len() && (#[trigger] first_index(names, keys[j])) is Some
                            && seen[first_index(names, keys[j])->0];
                    assert(j > 0);
                    assert(rest[j - 1] == keys[j]);
                    assert(first_index(names, rest[j - 1]) is Some && seen[first_index(names, rest[j - 1])->0]);
                }
                if exists|j: int|
                    0 <= j < rest.len() && (#[trigger] first_index(names, rest[j])) is Some
                        && seen[first_index(names, rest[j])->0] {
                    let j = choose|j: int|
                        0 <= j < rest.len() && (#[trigger] first_index(names, rest[j])) is Some
                            && seen[first_index(names, rest[j])->0];
                    assert(keys[j + 1] == rest[j]);
                    assert(first_index(names, keys[j + 1]) is Some && seen[first_index(names, keys[j + 1])->0]);
                }
            },
            Some(k) => {
                if seen[k] {
                    assert(first_index(names, keys[0]) is Some && seen[first_index(names, keys[0])->0]);
                } else {
                    let seen2 = seen.update(k, true);
                    lemma_scan(names, seen2, rest);
                    // A repeat in `keys` is a repeat in `rest` or a later key naming `k`.
                    if has_repeated_field(names, keys) {
                        let (a, b) = choose|a: int, b: int|
                            0 <= a < b < keys.len() && #[trigger] same_field(names, keys, a, b);
                        if a == 0 {
                            assert(rest[b - 1] == keys[b]);
                            assert(first_index(names, rest[b - 1]) is Some && seen2[first_index(names, rest[b - 1])->0]);
                        } else {
                            assert(same_field(names, rest, a - 1, b - 1));
                        }
                    }
                    if has_repeated_field(names, rest) {
                        let (a, b) = choose|a: int, b: int|
                            0 <= a < b < rest.len() && #[trigger] same_field(names, rest, a, b);
                        assert(same_field(names, keys, a + 1, b + 1));
                    }
                    if exists|j: int|
                        0 <= j < rest.len() && (#[trigger] first_index(names, rest[j])) is Some
                            && seen2[first_index(names, rest[j])->0] {
                        let j = choose|j: int|
                            0 <= j < rest.len() && (#[trigger] first_index(names, rest[j])) is Some
                                && seen2[first_index(names, rest[j])->0];
                        assert(keys[j + 1] == rest[j]);
                        lemma_first_index_bounds(names, rest[j]);
                        if first_index(names, rest[j])->0 == k {
                            assert(same_field(names, keys, 0, j + 1));
                        } else {
                            assert(first_index(names, keys[j + 1]) is Some && seen[first_index(names, keys[j + 1])->0]);
                        }
                    }
                    if exists|j: int|
                        0 <= j < keys.len() && (#[trigger] first_index(names, keys[j])) is Some
                            && seen[first_index(names, keys[j])->0] {
                        let j = choose|j: int|
                            0 <= j < keys.len() && (#[trigger] first_index(names, keys[j])) is Some
                                && seen[first_index(names, keys[j])->0];
                        assert(j > 0);
                        assert(rest[j - 1] == keys[j]);
                        lemma_first_index_bounds(names, keys[j]);
                        assert(first_index(names, rest[j - 1]) is Some && seen2[first_index(names, rest[j - 1])->0]);
                    }
                    assert forall|i: int| 0 <= i < names.len() implies (names_field(names, keys, i)
                        <==> (i == k || names_field(names, rest, i))) by {
                        if names_field(names, keys, i) {
                            let j = choose|j: int|
                                0 <= j < keys.len() && first_index(names, #[trigger] keys[j])
                                    == Some(i);
                            if j > 0 {
                                assert(rest[j - 1] == keys[j]);
                            }
                        }
                        if names_field(names, rest, i) {
                            let j = choose|j: int|
                                0 <= j < rest.len() && first_index(names, #[trigger] rest[j])
                                    == Some(i);
                            assert(keys[j + 1] == rest[j]);
                        }
                        if i == k {
                            assert(first_index(names, keys[0]) == Some(i));
                        }
                    }
                }
            },
        }
    }
}

/// Reading one more key continues the reading of the keys before it: an
/// object read key by key with [`FieldTracker::visit`] is read as [`scan`]
/// reads its whole key sequence.
pub proof fn lemma_scan_push(
    names: Seq<Seq<char>>,
    seen: Seq<bool>,
    keys: Seq<Seq<char>>,
    key: Seq<char>,
)
    ensures
        scan(names, seen, keys.push(key)) == (match scan(names, seen, keys) {
            Ok(s) => scan(names, s, seq![key]),
            Err(e) => Err(e),
        }),
    decreases keys.len(),
{
    if keys.len() == 0 {
        assert(keys.push(key) =~= seq![key]);
    } else {
        assert(keys.push(key).drop_first() =~= keys.drop_first().push(key));
        assert(keys.push(key)[0] == keys[0]);
        match first_index(names, keys[0]) {
            None => {
                lemma_scan_push(names, seen, keys.drop_first(), key);
            },
            Some(i) => {
                if !seen[i] {
                    lemma_scan_push(names, seen.update(i, true), keys.drop_first(), key);
                }
            },
        }
    }
}

/// The first field not seen is not seen, and every field before it is.
proof fn lemma_first_unseen_found(seen: Seq<bool>)
    ensures
        first_unseen(seen) matches Some(i) ==> 0 <= i < seen.len() && !seen[i] && forall|j: int|
            0 <= j < i ==> seen[j],
        first_unseen(seen) is None ==> forall|j: int| 0 <= j < seen.len() ==> seen[j],
    decreases seen.len(),
{
    if seen.len() > 0 {
        let rest = seen.drop_last();
        lemma_first_unseen_found(rest);
        assert forall|j: int| 0 <= j < rest.len() implies rest[j] == seen[j] by {}
    }
}

/// Reading a whole object: when a known field comes twice, reading stops
/// there with that field as the duplicate; otherwise the fields seen are
/// exactly those the keys name, and the first known field no key names is
/// the missing one that [`FieldTracker::finish`] reports, every field before
/// it being named.
pub proof fn lemma_object_scan(names: Seq<Seq<char>>, keys: Seq<Seq<char>>)
    ensures
        scan(names, Seq::new(names.len(), |i: int| false), keys) is Err <==> has_repeated_field(
            names,
            keys,
        ),
        scan(names, Seq::new(names.len(), |i: int| false), keys) matches Ok(s) ==> s.len()
            == names.len() && forall|i: int|
            0 <= i < names.len() ==> (s[i] <==> names_field(names, keys, i)),
        scan(names, Seq::new(names.len(), |i: int| false), keys) matches Ok(s) ==> (match first_unseen(s) {
            Some(i) => 0 <= i < names.len() && !names_field(names, keys, i) && forall|j: int|
                0 <= j < i ==> names_field(names, keys, j),
            None => forall|j: int| 0 <= j < names.len() ==> names_field(names, keys, j),
        }),
{
    lemma_scan(names, Seq::new(names.len(), |i: int| false), keys);
    let seen = Seq::new(names.len(), |i: int| false);
    assert forall|j: int| 0 <= j < keys.len() && (#[trigger] first_index(names, keys[j])) is Some
        implies !seen[first_index(names, keys[j])->0] by {
        lemma_first_index_bounds(names, keys[j]);
    }
    if let Ok(s) = scan(names, seen, keys) {
        lemma_first_unseen_found(s);
        assert(s.len() == names.len());
        match first_unseen(s) {
            Some(i) => {
                assert(!s[i]);
                assert forall|j: int| 0 <= j < i implies names_field(names, keys, j) by {
                    assert(s[j]);
                }
            },
            None => {
                assert forall|j: int| 0 <= j < names.len() implies names_field(names, keys, j) by {
                    assert(s[j]);
                }
            },
        }
    }
}

/// The fields of an object being read, as the keys arrive: which are known,
/// and which were seen. A key that names no known field is ignored; a known
/// field seen twice is an error; once every key has arrived, the first
/// known field not seen is missing.
pub struct FieldTracker {
    names: Vec<&'static str>,
    seen: Vec<bool>,
}

impl View for FieldTracker {
    /// The known field names, and for each whether it was seen.
    type V = (Seq<Seq<char>>, Seq<bool>);

    closed spec fn view(&self) -> (Seq<Seq<char>>, Seq<bool>) {
        (self.names@.map_values(|n: &str| n@), self.seen@)
    }
}

impl FieldTracker {
    #[verifier::type_invariant]
    spec fn same_length(self) -> bool {
        self.names@.len() == self.seen@.len()
    }

    /// A tracker of the given fields, none seen yet.
    pub fn new(names: Vec<&'static str>) -> (r: Self)
        ensures
            r@.0 == names@.map_values(|n: &str| n@),
            r@.1 == Seq::new(names@.len(), |i: int| false),
    {
        let mut seen: Vec<bool> = Vec::new();
        let mut i: usize = 0;
        while i < names.len()
            invariant
                i <= names@.len(),
                seen@ == Seq::new(i as nat, |j: int| false),
            decreases names@.len() - i,
        {
            seen.push(false);
            i = i + 1;
            assert(seen@ =~= Seq::new(i as nat, |j: int| false));
        }
        FieldTracker { names, seen }
    }

    /// Records the key of the next field: `Ok(Some(i))` when it is the
    /// first occurrence of the known field `i`, whose value is then read;
    /// `Ok(None)` when no known field has this name, whose value is then
    /// skipped; an error when the field was seen before.
    pub fn visit(&mut self, key: &str) -> (r: Result<Option<usize>, FieldError>)
        ensures
            final(self)@.0 == old(self)@.0,
            match first_index(old(self)@.0, key@) {
                None => r == Ok::<Option<usize>, FieldError>(None) && final(self)@ == old(self)@,
                Some(i) => if old(self)@.1[i] {
                    (r matches Err(FieldError::Duplicate(n)) && n@ == key@) && final(self)@
                        == old(self)@
                } else {
                    r == Ok::<Option<usize>, FieldError>(Some(i as usize)) && final(self)@.1
                        == old(self)@.1.update(i, true)
                },
            },
            r is Ok ==> scan(old(self)@.0, old(self)@.1, seq![key@]) == Ok::<
                Seq<bool>,
                Seq<char>,
            >(final(self)@.1),
            r is Err ==> scan(old(self)@.0, old(self)@.1, seq![key@]) is Err,
    {
        proof {
            use_type_invariant(&*self);
        }
        let ghost names = self@.0;
        let mut i: usize = 0;
        while i < self.names.len()
            invariant
                i <= self.names@.len(),
                self.seen@.len() == self.names@.len(),
                *self == *old(self),
                names == self.names@.map_values(|n: &str| n@),
                forall|j: int| 0 <= j < i ==> names[j] != key@,
            decreases self.names@.len() - i,
        {
            let name = self.names[i];
            if crate::text::str_eq(name, key) {
                proof {
                    lemma_first_index(names, key@, i as int);
                    lemma_first_prefix_some_index(names, key@, i + 1, i as int);
                }
                proof {
                    assert(seq![key@].drop_first() =~= Seq::<Seq<char>>::empty());
                    assert(seq![key@][0] == key@);
                    reveal_with_fuel(scan, 2);
                }
                if self.seen[i] {
                    return Err(FieldError::Duplicate(name));
                }
                self.seen[i] = true;
                return Ok(Some(i));
            }
            i = i + 1;
        }
        proof {
            lemma_first_index(names, key@, i as int);
            lemma_first_prefix_none_index(names, key@, i as int);
            assert(seq![key@].drop_first() =~= Seq::<Seq<char>>::empty());
            assert(seq![key@][0] == key@);
            reveal_with_fuel(scan, 2);
        }
        Ok(None)
    }

    /// After the last key: the first known field not seen, if any, is
    /// missing.
    pub fn finish(&self) -> (r: Result<(), FieldError>)
        ensures
            match first_unseen(self@.1) {
                None => r is Ok,
                Some(i) => r matches Err(FieldError::Missing(n)) && n@ == self@.0[i],
            },
    {
        proof {
            use_type_invariant(self);
        }
        let mut i: usize = 0;
        while i < self.seen.len()
            invariant
                i <= self.seen@.len(),
                self.seen@.len() == self.names@.len(),
                forall|j: int| 0 <= j < i ==> self.seen@[j],
            decreases self.seen@.len() - i,
        {
            if !self.seen[i] {
                proof {
                    lemma_first_unseen(self.seen@, i as int);
                    lemma_first_prefix_some_unseen(self.seen@, i + 1, i as int);
                }
                return Err(FieldError::Missing(self.names[i]));
            }
            i = i + 1;
        }
        proof {
            lemma_first_unseen(self.seen@, i as int);
            lemma_first_prefix_none_unseen(self.seen@, i as int);
        }
        Ok(())
    }
}

} // verus!
