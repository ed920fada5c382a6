//! What a response decides, and the errors of reading its body.
use vstd::prelude::*;
use vstd::string::*;

use crate::text::opt_text;
use crate::types::id::{parse_u64, parsed_u64};

verus! {

/// Marker that the response has no content.
#[non_exhaustive]
pub struct NoContent;

impl NoContent {
    pub fn new() -> (r: Self) {
        NoContent
    }
}

/// What the status of a response and its `Retry-After` header decide.
#[derive(Clone, Copy, Debug, PartialEq, Eq, Structural)]
pub enum Outcome {
    /// A `2xx` status: the response is handed back.
    Success,
    /// The request was refused; it may be sent again after this many
    /// seconds.
    RateLimited(u64),
    /// Any other status: the error object of the body is read and reported
    /// with the status.
    ErrorBody,
}

/// The outcome of a response with the given status and, if the response has
/// one that is visible ASCII, the text of its `Retry-After` header.
pub open spec fn outcome_of(status: u16, retry_after: Option<Seq<char>>) -> Outcome {
    if 200 <= status <= 299 {
        Outcome::Success
    } else {
        match retry_after {
            Some(t) => match parsed_u64(t) {
                Some(n) => Outcome::RateLimited(n),
                None => Outcome::ErrorBody,
            },
            None => Outcome::ErrorBody,
        }
    }
}

/// The outcome of a response with the given status and `Retry-After` text.
pub fn outcome(status: u16, retry_after: Option<&str>) -> (r: Outcome)
    ensures
        r == outcome_of(status, opt_text(retry_after)),
{
    if 200 <= status && status <= 299 {
        return Outcome::Success;
    }
    match retry_after {
        Some(t) => match parse_u64(t) {
            Some(n) => Outcome::RateLimited(n),
            None => Outcome::ErrorBody,
        },
        None => Outcome::ErrorBody,
    }
}

/// What went wrong when processing a response body.
#[derive(Debug)]
#[non_exhaustive]
pub enum BodyErrorKind {
    /// The body could not be loaded.
    Loading,
    /// The body could not be deserialized.
    Decode { bytes: Vec<u8> },
    /// The body is not valid UTF-8.
    InvalidUtf8 { bytes: Vec<u8> },
}

/// Failure when processing a response body, with its cause of type `S`.
pub struct BodyError<S> {
    kind: BodyErrorKind,
    source: Option<S>,
}

/// The message of a body error of a given kind.
pub open spec fn body_message(kind: BodyErrorKind) -> Seq<char> {
    match kind {
        BodyErrorKind::Loading => "failed to retrieve response body"@,
        BodyErrorKind::Decode { .. } => "failed to decode response body"@,
        BodyErrorKind::InvalidUtf8 { .. } => "response body is not a valid utf8 string"@,
    }
}

impl<S> BodyError<S> {
    /// The kind as the contracts see it.
    pub closed spec fn spec_kind(&self) -> BodyErrorKind {
        self.kind
    }

    /// The cause as the contracts see it.
    pub closed spec fn spec_source(&self) -> Option<S> {
        self.source
    }

    /// An error of the given kind with an optional cause.
    pub fn new(kind: BodyErrorKind, source: Option<S>) -> (r: Self)
        ensures
            r.spec_kind() == kind,
            r.spec_source() == source,
    {
        BodyError { kind, source }
    }

    /// A body that could not be deserialized.
    pub fn decode(bytes: Vec<u8>, source: S) -> (r: Self)
        ensures
            r.spec_kind() == (BodyErrorKind::Decode { bytes }),
            r.spec_source() == Some(source),
    {
        Self::new(BodyErrorKind::Decode { bytes }, Some(source))
    }

    /// A body that is not valid UTF-8.
    pub fn invalid_utf8(bytes: Vec<u8>, source: S) -> (r: Self)
        ensures
            r.spec_kind() == (BodyErrorKind::InvalidUtf8 { bytes }),
            r.spec_source() == Some(source),
    {
        Self::new(BodyErrorKind::InvalidUtf8 { bytes }, Some(source))
    }

    /// Returns true if the body could not be loaded.
    pub fn is_loading(&self) -> (r: bool)
        ensures
            r <==> self.spec_kind() is Loading,
    {
        matches!(self.kind, BodyErrorKind::Loading)
    }

    /// Returns true if the response body could not be deserialized.
    pub fn is_decode(&self) -> (r: bool)
        ensures
            r <==> self.spec_kind() is Decode,
    {
        matches!(self.kind, BodyErrorKind::Decode { .. })
    }

    /// Returns true if the response body contains invalid utf8 data.
    pub fn is_invalid_utf8(&self) -> (r: bool)
        ensures
            r <==> self.spec_kind() is InvalidUtf8,
    {
        matches!(self.kind, BodyErrorKind::InvalidUtf8 { .. })
    }

    /// The bytes that were attempted to deserialize or convert to a string.
    pub fn as_bytes(&self) -> (r: Option<&[u8]>)
        ensures
            self.spec_kind() is Loading ==> r is None,
            self.spec_kind() matches BodyErrorKind::Decode { bytes } ==> (r matches Some(b)
                && b@ == bytes@),
            self.spec_kind() matches BodyErrorKind::InvalidUtf8 { bytes } ==> (r matches Some(b)
                && b@ == bytes@),
    {
        match &self.kind {
            BodyErrorKind::Decode { bytes } => Some(bytes.as_slice()),
            BodyErrorKind::InvalidUtf8 { bytes } => Some(bytes.as_slice()),
            BodyErrorKind::Loading => None,
        }
    }

    /// The cause of the error.
    pub fn source(&self) -> (r: Option<&S>)
        ensures
            r is Some <==> self.spec_source() is Some,
            r matches Some(s) ==> self.spec_source() == Some(*s),
    {
        match &self.source {
            Some(s) => Some(s),
            None => None,
        }
    }

    /// The message of the error.
    pub fn to_string(&self) -> (r: String)
        ensures
            r@ == body_message(self.spec_kind()),
    {
        match self.kind {
            BodyErrorKind::Loading => "failed to retrieve response body".to_string(),
            BodyErrorKind::Decode { .. } => "failed to decode response body".to_string(),
            BodyErrorKind::InvalidUtf8 { .. } => {
                "response body is not a valid utf8 string".to_string()
            },
        }
    }
}

/// What a response decides, over every status and header: it succeeds
/// exactly when the status is in 200..=299, whatever the header; otherwise
/// it is rate limited for `n` seconds exactly when the `Retry-After` text
/// reads as the number `n`, and its error body is read in every other case.
pub proof fn lemma_outcome_decisions(status: u16, retry_after: Option<Seq<char>>)
    ensures
        (outcome_of(status, retry_after) == Outcome::Success) <==> (200 <= status && status < 300),
        forall|n: u64|
            (outcome_of(status, retry_after) == Outcome::RateLimited(n)) <==> (!(200 <= status
                && status < 300) && retry_after is Some && parsed_u64(retry_after->0) == Some(n)),
        (outcome_of(status, retry_after) == Outcome::ErrorBody) <==> (!(200 <= status && status
            < 300) && (retry_after is None || parsed_u64(retry_after->0) is None)),
{
}

/// The message of every kind of body error.
pub proof fn lemma_body_messages(kind: BodyErrorKind)
    ensures
        kind is Loading ==> body_message(kind) == "failed to retrieve response body"@,
        kind is Decode ==> body_message(kind) == "failed to decode response body"@,
        kind is InvalidUtf8 ==> body_message(kind) == "response body is not a valid utf8 string"@,
{
}

} // verus!
