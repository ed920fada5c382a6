//! The HTTP methods the API's routes are requested with.
use vstd::prelude::*;
use vstd::string::*;

verus! {

/// An HTTP request method.
#[derive(Clone, Copy, Debug, PartialEq, Eq, Structural)]
pub enum Method {
    Get,
    Post,
    Put,
    Delete,
}

impl Method {
    /// The method's name as it stands in a request line.
    pub open spec fn name(self) -> Seq<char> {
        match self {
            Method::Get => "GET"@,
            Method::Post => "POST"@,
            Method::Put => "PUT"@,
            Method::Delete => "DELETE"@,
        }
    }

    /// The method's name as it stands in a request line.
    pub fn as_str(&self) -> (s: &'static str)
        ensures
            s@ == self.name(),
    {
        match self {
            Method::Get => "GET",
            Method::Post => "POST",
            Method::Put => "PUT",
            Method::Delete => "DELETE",
        }
    }
}

/// The name of every method in a request line, `GET`, `POST`, `PUT` and
/// `DELETE`, each method with its own name.
pub proof fn lemma_method_names(m: Method)
    ensures
        m == Method::Get <==> m.name() == "GET"@,
        m == Method::Post <==> m.name() == "POST"@,
        m == Method::Put <==> m.name() == "PUT"@,
        m == Method::Delete <==> m.name() == "DELETE"@,
{
    reveal_strlit("GET");
    assert("GET"@.len() == 3);
    reveal_strlit("POST");
    assert("POST"@.len() == 4);
    reveal_strlit("PUT");
    assert("PUT"@.len() == 3);
    reveal_strlit("DELETE");
    assert("DELETE"@.len() == 6);
    assert("GET"@[0] == 'G' && "PUT"@[0] == 'P');
}

} // verus!
