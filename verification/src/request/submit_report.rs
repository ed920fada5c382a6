//! Report a game, guide, mod or user.
use vstd::prelude::*;
use vstd::string::*;
use vstd::utf8::*;

use crate::form::{form_append_pair, form_pair};
use crate::request::routing::Route;
use crate::text::{decimal, decimal_string, opt_text};
use crate::types::id::ResourceId;

verus! {

/// Report a game, guide, mod or user.
pub struct SubmitReport<'a> {
    resource: &'a str,
    id: ResourceId,
    kind: u8,
    summary: &'a str,
    name: Option<&'a str>,
    contact: Option<&'a str>,
}

/// The form text of an optional field: the pair when the field is set, the
/// text unchanged when it is not.
pub open spec fn optional_pair(target: Seq<char>, key: Seq<char>, value: Option<Seq<char>>) -> Seq<
    char,
> {
    match value {
        Some(v) => target + form_pair(target, encode_utf8(key), encode_utf8(v)),
        None => target,
    }
}

/// The form text of a report's fields, in their order: `resource`, `id`,
/// `type`, `summary`, then `name` and `contact` when they are set.
pub open spec fn report_form(
    resource: Seq<char>,
    id: nat,
    kind: nat,
    summary: Seq<char>,
    name: Option<Seq<char>>,
    contact: Option<Seq<char>>,
) -> Seq<char> {
    let s1 = form_pair(Seq::empty(), encode_utf8("resource"@), encode_utf8(resource));
    let s2 = s1 + form_pair(s1, encode_utf8("id"@), encode_utf8(decimal(id)));
    let s3 = s2 + form_pair(s2, encode_utf8("type"@), encode_utf8(decimal(kind)));
    let s4 = s3 + form_pair(s3, encode_utf8("summary"@), encode_utf8(summary));
    optional_pair(optional_pair(s4, "name"@, name), "contact"@, contact)
}

fn push_optional(s: &mut String, key: &str, value: Option<&str>)
    ensures
        final(s)@ == optional_pair(old(s)@, key@, opt_text(value)),
{
    match value {
        Some(v) => form_append_pair(s, key, v),
        None => {},
    }
}

/// The fields of a report: resource type, ID, report type, summary, name and
/// contact.
pub type ReportFields = (Seq<char>, nat, nat, Seq<char>, Option<Seq<char>>, Option<Seq<char>>);

impl<'a> View for SubmitReport<'a> {
    type V = ReportFields;

    closed spec fn view(&self) -> ReportFields {
        (
            self.resource@,
            self.id@ as nat,
            self.kind as nat,
            self.summary@,
            opt_text(self.name),
            opt_text(self.contact),
        )
    }
}

impl<'a> SubmitReport<'a> {
    /// The text of the form that the report is sent as.
    pub open spec fn form_text(&self) -> Seq<char> {
        report_form(self@.0, self@.1, self@.2, self@.3, self@.4, self@.5)
    }

    /// A report of the resource of type `resource` with the given ID, of the
    /// report type `kind`, with a summary; no name and no contact yet.
    pub fn new(resource: &'a str, id: ResourceId, kind: u8, summary: &'a str) -> (r: Self)
        ensures
            r@ == (resource@, id@ as nat, kind as nat, summary@, None::<Seq<char>>, None::<Seq<char>>),
    {
        SubmitReport { resource, id, kind, summary, name: None, contact: None }
    }

    /// Name of the user submitting the report.
    pub fn name(self, name: &'a str) -> (r: Self)
        ensures
            r@ == (self@.0, self@.1, self@.2, self@.3, Some(name@), self@.5),
    {
        SubmitReport { name: Some(name), ..self }
    }

    /// Contact details of the user submitting the report.
    pub fn contact(self, contact: &'a str) -> (r: Self)
        ensures
            r@ == (self@.0, self@.1, self@.2, self@.3, self@.4, Some(contact@)),
    {
        SubmitReport { contact: Some(contact), ..self }
    }

    /// The route of the report and the form it is sent as.
    pub fn into_request(self) -> (r: (Route, String))
        ensures
            r.0 == Route::SubmitReport,
            r.1@ == self.form_text(),
    {
        let mut s = String::new();
        form_append_pair(&mut s, "resource", self.resource);
        let id_text = decimal_string(self.id.get());
        form_append_pair(&mut s, "id", id_text.as_str());
        let kind_text = decimal_string(self.kind as u64);
        form_append_pair(&mut s, "type", kind_text.as_str());
        form_append_pair(&mut s, "summary", self.summary);
        push_optional(&mut s, "name", self.name);
        push_optional(&mut s, "contact", self.contact);
        (Route::SubmitReport, s)
    }
}

} // verus!
