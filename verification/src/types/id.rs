//! Type-safe ID type for each resource.
use std::marker::PhantomData;
use std::cmp::Ordering;
use std::num::{ParseIntError, TryFromIntError};

use vstd::prelude::*;
use vstd::std_specs::cmp::{PartialEqSpec, PartialOrdSpec};

use crate::text::{decimal, digit_char, push_decimal};

/// Markers for various resource types.
pub mod marker;

verus! {

/// ID with a game marker.
pub type GameId = Id<marker::GameMarker>;
/// ID with a mod marker.
pub type ModId = Id<marker::ModMarker>;
/// ID with a file marker.
pub type FileId = Id<marker::FileMarker>;
/// ID with an event marker.
pub type EventId = Id<marker::EventMarker>;
/// ID with a comment marker.
pub type CommentId = Id<marker::CommentMarker>;
/// ID with a user marker.
pub type UserId = Id<marker::UserMarker>;
/// ID with a team member marker.
pub type MemberId = Id<marker::MemberMarker>;
/// ID with a resource marker.
pub type ResourceId = Id<marker::ResourceMarker>;

/// ID of a resource, such as the ID of a game or a mod.
///
/// The value is never zero.
#[derive(Debug, Hash, Ord)]
pub struct Id<T> {
    phantom: PhantomData<T>,
    value: u64,
}

impl<T> View for Id<T> {
    type V = u64;

    closed spec fn view(&self) -> u64 {
        self.value
    }
}

impl<T> Id<T> {
    #[verifier::type_invariant]
    spec fn nonzero(self) -> bool {
        self.value != 0
    }

    /// Create a new ID.
    ///
    /// The value must not be zero.
    pub fn new(value: u64) -> (id: Self)
        requires
            value != 0,
        ensures
            id@ == value,
    {
        Id { phantom: PhantomData, value }
    }

    /// Create a new ID if the given value is not zero.
    pub fn new_checked(value: u64) -> (id: Option<Self>)
        ensures
            value == 0 <==> id is None,
            id matches Some(i) ==> i@ == value,
    {
        if value != 0 {
            Some(Id { phantom: PhantomData, value })
        } else {
            None
        }
    }

    /// The numeric value of the ID.
    pub fn get(self) -> (v: u64)
        ensures
            v == self@,
            v != 0,
    {
        proof {
            use_type_invariant(&self);
        }
        self.value
    }

    /// The same value as an ID of another resource type.
    pub fn transform<New>(self) -> (id: Id<New>)
        ensures
            id@ == self@,
    {
        Id::new(self.get())
    }

    /// Appends the decimal form of the ID to `s`.
    pub fn push_to(&self, s: &mut String)
        ensures
            final(s)@ == old(s)@ + decimal(self@ as nat),
    {
        push_decimal(s, self.value);
    }

    /// The decimal form of the ID.
    pub fn to_string(&self) -> (r: String)
        ensures
            r@ == decimal(self@ as nat),
    {
        let mut s = String::new();
        self.push_to(&mut s);
        s
    }

    /// Parses an ID from its decimal form; zero is refused.
    pub fn parse(s: &str) -> (r: Result<Self, ParseIntError>)
        ensures
            r is Ok <==> (parsed_u64(s@) is Some && parsed_u64(s@)->0 != 0),
            r matches Ok(id) ==> parsed_u64(s@) == Some(id@),
    {
        match parse_nonzero_u64(s) {
            Ok(v) => Ok(Id::new(v)),
            Err(e) => Err(e),
        }
    }
}

impl<T> Clone for Id<T> {
    fn clone(&self) -> (r: Self)
        ensures
            r@ == self@,
    {
        *self
    }
}

impl<T> Copy for Id<T> {
}

impl<T> PartialEq for Id<T> {
    fn eq(&self, other: &Self) -> (r: bool) {
        self.value == other.value
    }
}

impl<T> vstd::std_specs::cmp::PartialEqSpecImpl for Id<T> {
    open spec fn obeys_eq_spec() -> bool {
        true
    }

    open spec fn eq_spec(&self, other: &Self) -> bool {
        self@ == other@
    }
}

impl<T> Eq for Id<T> {
}

/// The order of two numbers.
pub open spec fn order_of(a: u64, b: u64) -> Ordering {
    if a < b {
        Ordering::Less
    } else if a == b {
        Ordering::Equal
    } else {
        Ordering::Greater
    }
}

impl<T> PartialOrd for Id<T> {
    fn partial_cmp(&self, other: &Self) -> (r: Option<Ordering>) {
        if self.value < other.value {
            Some(Ordering::Less)
        } else if self.value == other.value {
            Some(Ordering::Equal)
        } else {
            Some(Ordering::Greater)
        }
    }
}

impl<T> vstd::std_specs::cmp::PartialOrdSpecImpl for Id<T> {
    open spec fn obeys_partial_cmp_spec() -> bool {
        true
    }

    open spec fn partial_cmp_spec(&self, other: &Self) -> Option<Ordering> {
        Some(order_of(self@, other@))
    }
}

impl<T> TryFrom<u64> for Id<T> {
    type Error = TryFromIntError;

    fn try_from(value: u64) -> (r: Result<Self, TryFromIntError>)
        ensures
            r is Ok <==> value != 0,
            r matches Ok(id) ==> id@ == value,
    {
        match nonzero_try_from(value) {
            Ok(v) => Ok(Id::new(v)),
            Err(e) => Err(e),
        }
    }
}

impl<T> PartialEq<u64> for Id<T> {
    fn eq(&self, other: &u64) -> (r: bool) {
        self.value == *other
    }
}

impl<T> vstd::std_specs::cmp::PartialEqSpecImpl<u64> for Id<T> {
    open spec fn obeys_eq_spec() -> bool {
        true
    }

    open spec fn eq_spec(&self, other: &u64) -> bool {
        self@ == *other
    }
}

impl<T> PartialEq<Id<T>> for u64 {
    fn eq(&self, other: &Id<T>) -> (r: bool) {
        other.value == *self
    }
}

impl<T> vstd::std_specs::cmp::PartialEqSpecImpl<Id<T>> for u64 {
    open spec fn obeys_eq_spec() -> bool {
        true
    }

    open spec fn eq_spec(&self, other: &Id<T>) -> bool {
        *self == other@
    }
}

impl<T> From<Id<T>> for u64 {
    fn from(value: Id<T>) -> (r: u64) {
        value.get()
    }
}

impl<T> vstd::std_specs::convert::FromSpecImpl<Id<T>> for u64 {
    open spec fn obeys_from_spec() -> bool {
        true
    }

    open spec fn from_spec(value: Id<T>) -> u64 {
        value@
    }
}

impl<T> std::str::FromStr for Id<T> {
    type Err = ParseIntError;

    fn from_str(s: &str) -> (r: Result<Self, Self::Err>)
        ensures
            r is Ok <==> (parsed_u64(s@) is Some && parsed_u64(s@)->0 != 0),
            r matches Ok(id) ==> parsed_u64(s@) == Some(id@),
    {
        Self::parse(s)
    }
}

/// The value of a decimal numeral: an optional `+` followed by one or more
/// ASCII digits, with no other character, whose value is below 2^64.
pub open spec fn parsed_u64(s: Seq<char>) -> Option<u64> {
    let digits = if s.len() > 0 && s[0] == '+' { s.skip(1) } else { s };
    if digits.len() > 0 && all_digits(digits) && digits_value(digits) <= u64::MAX {
        Some(digits_value(digits) as u64)
    } else {
        None
    }
}

/// All characters are ASCII digits.
pub open spec fn all_digits(s: Seq<char>) -> bool {
    forall|i: int| 0 <= i < s.len() ==> '0' <= #[trigger] s[i] <= '9'
}

/// The value of a sequence of ASCII digits, most significant first.
pub open spec fn digits_value(s: Seq<char>) -> nat
    decreases s.len(),
{
    if s.len() == 0 {
        0
    } else {
        digits_value(s.drop_last()) * 10 + ((s.last() as nat) - ('0' as nat)) as nat
    }
}

/// The decimal form of a number is one or more digits, with no sign, whose
/// value is the number.
pub proof fn lemma_decimal_digits(n: nat)
    ensures
        decimal(n).len() > 0,
        all_digits(decimal(n)),
        digits_value(decimal(n)) == n,
        decimal(n)[0] != '+',
    decreases n,
{
    let d = decimal(n);
    if n < 10 {
        assert(d.drop_last() =~= Seq::<char>::empty());
        assert(digits_value(d.drop_last()) == 0);
    } else {
        lemma_decimal_digits(n / 10);
        assert(d.drop_last() =~= decimal(n / 10));
        assert(d[0] == decimal(n / 10)[0]);
    }
    assert(((digit_char(n % 10) as nat) - ('0' as nat)) == n % 10);
}

/// Two IDs of one resource type are equal exactly when their values are,
/// and `==` on them says so.
pub proof fn lemma_id_eq<T>(a: Id<T>, b: Id<T>)
    ensures
        (a@ == b@) <==> (a == b),
        a.eq_spec(&b) <==> (a == b),
{
}

/// `partial_cmp` orders IDs as their values.
pub proof fn lemma_id_order<T>(a: Id<T>, b: Id<T>)
    ensures
        a.partial_cmp_spec(&b) == Some(order_of(a@, b@)),
        (order_of(a@, b@) == Ordering::Less) <==> a@ < b@,
        (order_of(a@, b@) == Ordering::Equal) <==> a@ == b@,
        (order_of(a@, b@) == Ordering::Greater) <==> a@ > b@,
{
}

/// The decimal form of a number reads back as that number.
pub proof fn lemma_decimal_round_trip(n: u64)
    ensures
        parsed_u64(decimal(n as nat)) == Some(n),
{
    lemma_decimal_digits(n as nat);
}

/// Reading the text of an ID gives the ID back: what [`Id::to_string`]
/// writes, [`Id::parse`] accepts with the same value.
pub proof fn lemma_id_text_round_trip(value: u64)
    requires
        value != 0,
    ensures
        parsed_u64(decimal(value as nat)) is Some,
        parsed_u64(decimal(value as nat))->0 == value,
{
    lemma_decimal_round_trip(value);
}

/// `<NonZeroU64 as FromStr>::from_str`, taken to its `u64` value.
///
/// Its documentation: the string must be an optional `+` sign followed by
/// digits only, with a value that fits in 64 bits and is not zero; anything
/// else is an error.
#[verifier::external_body]
fn parse_nonzero_u64(s: &str) -> (r: Result<u64, ParseIntError>)
    ensures
        r is Ok <==> (parsed_u64(s@) is Some && parsed_u64(s@)->0 != 0),
        r matches Ok(v) ==> parsed_u64(s@) == Some(v),
{
    s.parse::<std::num::NonZeroU64>().map(std::num::NonZeroU64::get)
}

/// `<u64 as FromStr>::from_str`, with the error dropped.
///
/// Its documentation: the string must be an optional `+` sign followed by
/// digits only, with a value that fits in 64 bits; anything else is an
/// error.
#[verifier::external_body]
pub(crate) fn parse_u64(s: &str) -> (r: Option<u64>)
    ensures
        r == parsed_u64(s@),
{
    s.parse::<u64>().ok()
}

/// The error of a failed conversion cannot be written in a specification, so
/// the conversion's contract is the one on `try_from` itself.
impl<T> vstd::std_specs::convert::TryFromSpecImpl<u64> for Id<T> {
    open spec fn obeys_try_from_spec() -> bool {
        false
    }

    open spec fn try_from_spec(v: u64) -> Result<Self, TryFromIntError> {
        arbitrary()
    }
}

/// `<NonZeroU64 as TryFrom<u64>>::try_from`, taken to its `u64` value.
///
/// Its documentation: the conversion fails exactly when the value is zero.
#[verifier::external_body]
fn nonzero_try_from(value: u64) -> (r: Result<u64, TryFromIntError>)
    ensures
        r is Ok <==> value != 0,
        r matches Ok(v) ==> v == value,
{
    std::num::NonZeroU64::try_from(value).map(std::num::NonZeroU64::get)
}

#[verifier::external_type_specification]
#[verifier::external_body]
pub struct ExParseIntError(ParseIntError);


} // verus!
