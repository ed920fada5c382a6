//! The errors of a multipart upload.
use vstd::prelude::*;
use vstd::string::*;

verus! {

/// The errors that may occur during a multipart upload, with their cause of
/// type `S`.
pub struct Error<S> {
    kind: ErrorKind,
    source: Option<S>,
}

/// What went wrong.
#[derive(Debug, PartialEq, Eq, Structural)]
#[non_exhaustive]
pub enum ErrorKind {
    Request,
    Body,
}

/// The message of an error of a given kind.
pub open spec fn message(kind: ErrorKind) -> Seq<char> {
    match kind {
        ErrorKind::Request => "request failed"@,
        ErrorKind::Body => "failed to load response body"@,
    }
}

impl<S> Error<S> {
    /// What went wrong.
    pub fn kind(&self) -> (r: &ErrorKind)
        ensures
            *r == self.spec_kind(),
    {
        &self.kind
    }

    /// The kind as the contracts see it.
    pub closed spec fn spec_kind(&self) -> ErrorKind {
        self.kind
    }

    /// A failed request.
    pub fn request(source: S) -> (r: Self)
        ensures
            r.spec_kind() == ErrorKind::Request,
            r.spec_source() == Some(source),
    {
        Error { kind: ErrorKind::Request, source: Some(source) }
    }

    /// A response body that could not be loaded.
    pub fn body(source: S) -> (r: Self)
        ensures
            r.spec_kind() == ErrorKind::Body,
            r.spec_source() == Some(source),
    {
        Error { kind: ErrorKind::Body, source: Some(source) }
    }

    /// The cause as the contracts see it.
    pub closed spec fn spec_source(&self) -> Option<S> {
        self.source
    }

    /// Whether the error carries its cause.
    pub open spec fn has_source(&self) -> bool {
        self.spec_source() is Some
    }

    /// The cause of the error.
    pub fn source(&self) -> (r: Option<&S>)
        ensures
            r is Some <==> self.has_source(),
            r matches Some(s) ==> self.spec_source() == Some(*s),
    {
        match &self.source {
            Some(s) => Some(s),
            None => None,
        }
    }

    /// The message of the error.
    pub fn to_string(&self) -> (r: String)
        ensures
            r@ == message(self.spec_kind()),
    {
        match self.kind {
            ErrorKind::Request => String::from_str("request failed"),
            ErrorKind::Body => String::from_str("failed to load response body"),
        }
    }
}

/// The message of every kind of upload error.
pub proof fn lemma_upload_messages(kind: ErrorKind)
    ensures
        kind is Request ==> message(kind) == "request failed"@,
        kind is Body ==> message(kind) == "failed to load response body"@,
{
}

} // verus!
