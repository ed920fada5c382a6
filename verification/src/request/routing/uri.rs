//! A route's path as an HTTP URI.
use http::uri::{InvalidUri, Uri};
use vstd::prelude::*;

use crate::request::routing::laws::{all_path_chars, lemma_route_path};
use crate::request::routing::{lemma_path_starts_with_slash, Path};

verus! {

#[verifier::external_type_specification]
#[verifier::external_body]
pub struct ExUri(Uri);

#[verifier::external_type_specification]
#[verifier::external_body]
pub struct ExInvalidUri(InvalidUri);

/// The texts `Uri::try_from` accepts as a path: 1 to 65534 characters, the
/// first a `/`, all of them path characters.
pub open spec fn accepted_path(text: Seq<char>) -> bool {
    &&& 1 <= text.len() <= 65534
    &&& text[0] == '/'
    &&& all_path_chars(text)
}

/// What `Uri::try_from` gives for a text: the URI it reads, or the error.
pub uninterp spec fn uri_of_text(text: Seq<char>) -> Result<Uri, InvalidUri>;

/// `<Uri as TryFrom<String>>::try_from`.
///
/// Its source (`Uri::from_shared` and `PathAndQuery::from_shared` of `http`):
/// a text of 1 to 65534 bytes that starts with `/` is read as a path and
/// query, and every byte of the path characters — ASCII letters and digits
/// and `/-._~=` — is accepted in the path, `?` starting the query, where all
/// of them are accepted too. The path characters are ASCII, so such a text
/// has as many bytes as characters. The result depends on the text alone,
/// and is named [`uri_of_text`]; which other texts are accepted, and what
/// the URI holds, is left unsaid.
#[verifier::external_body]
fn uri_from_string(text: String) -> (r: Result<Uri, InvalidUri>)
    ensures
        r == uri_of_text(text@),
        accepted_path(text@) ==> r is Ok,
{
    Uri::try_from(text)
}

impl TryFrom<Path> for Uri {
    type Error = InvalidUri;

    /// The URI of the route's path text; every route's path is accepted.
    fn try_from(value: Path) -> (r: Result<Uri, InvalidUri>)
        ensures
            r == uri_of_text(value.0.path_text()),
            r is Ok,
    {
        proof {
            lemma_route_path(value.0);
            lemma_path_starts_with_slash(value.0);
        }
        uri_from_string(value.to_string())
    }
}

/// The URI of a path cannot be written in a specification, so the
/// conversion's contract is the one on `try_from` itself.
impl vstd::std_specs::convert::TryFromSpecImpl<Path> for Uri {
    open spec fn obeys_try_from_spec() -> bool {
        false
    }

    open spec fn try_from_spec(v: Path) -> Result<Uri, InvalidUri> {
        arbitrary()
    }
}

} // verus!
