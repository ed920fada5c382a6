//! Users interface.
use vstd::prelude::*;
use vstd::string::*;
use vstd::utf8::*;

use crate::form::{form_append_pair, form_pair};
use crate::text::{decimal, decimal_string};

verus! {

/// A resource whose owner can be looked up.
#[derive(Clone, Copy, Debug, PartialEq, Eq, Structural)]
pub enum Resource {
    Game(u32),
    Mod(u32),
    File(u32),
}

impl Resource {
    /// The resource type as the API writes it.
    pub open spec fn kind_name(self) -> Seq<char> {
        match self {
            Resource::Game(_) => "games"@,
            Resource::Mod(_) => "mods"@,
            Resource::File(_) => "files"@,
        }
    }

    /// The ID of the resource.
    pub open spec fn id(self) -> u32 {
        match self {
            Resource::Game(id) => id,
            Resource::Mod(id) => id,
            Resource::File(id) => id,
        }
    }

    /// The form text `resource_type=...&resource_id=...` of the resource.
    pub open spec fn query_string(self) -> Seq<char> {
        let first = form_pair(
            Seq::empty(),
            encode_utf8("resource_type"@),
            encode_utf8(self.kind_name()),
        );
        first + form_pair(first, encode_utf8("resource_id"@), encode_utf8(decimal(self.id() as nat)))
    }

    /// The resource as a form-encoded query string.
    pub fn to_query_string(&self) -> (r: String)
        ensures
            r@ == self.query_string(),
    {
        let (kind, id): (&str, u32) = match *self {
            Resource::Game(id) => ("games", id),
            Resource::Mod(id) => ("mods", id),
            Resource::File(id) => ("files", id),
        };
        let id_text = decimal_string(id as u64);
        let mut s = String::new();
        form_append_pair(&mut s, "resource_type", kind);
        let ghost first = s@;
        form_append_pair(&mut s, "resource_id", id_text.as_str());
        assert(first =~= Seq::<char>::empty() + first);
        s
    }
}

/// The resource type written for a game, a mod and a file is `games`,
/// `mods` and `files`, whatever the ID: three different names.
pub proof fn lemma_resource_type_names(id: u32)
    ensures
        Resource::Game(id).kind_name() == "games"@,
        Resource::Mod(id).kind_name() == "mods"@,
        Resource::File(id).kind_name() == "files"@,
        "games"@ != "mods"@,
        "mods"@ != "files"@,
        "games"@ != "files"@,
{
    reveal_strlit("games");
    reveal_strlit("mods");
    reveal_strlit("files");
    assert("games"@.len() == 5 && "mods"@.len() == 4 && "files"@.len() == 5);
    assert("games"@[0] == 'g' && "files"@[0] == 'f');
}

} // verus!
