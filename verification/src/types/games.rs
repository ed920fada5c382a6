//! Types of games.
use std::collections::HashMap;

use vstd::prelude::*;

use crate::text::str_eq;

verus! {

/// See the [Icon Object](https://docs.mod.io/#icon-object) docs for more information.
///
/// URLs are kept as text, in the form a URL parser writes them.
#[derive(Debug)]
pub struct Icon {
    pub filename: String,
    pub original: String,
    pub thumb_64x64: String,
    pub thumb_128x128: String,
    pub thumb_256x256: String,
}

/// See the [Header Image Object](https://docs.mod.io/#header-image-object) docs for more
/// information.
///
/// The URL is kept as text, in the form a URL parser writes it.
#[derive(Debug)]
pub struct HeaderImage {
    pub filename: String,
    pub original: String,
}

/// Part of the [Game Statistics Object](https://docs.mod.io/#game-stats-object).
#[derive(Debug)]
pub struct Downloads {
    pub total: u32,
    pub today: u32,
    pub daily_average: u32,
}

/// See the [Game Tag Option Object](https://docs.mod.io/#game-tag-option-object) docs for more
/// information.
#[derive(Debug)]
pub struct TagOption {
    pub name: String,
    pub kind: TagType,
    pub tag_count: HashMap<String, u32>,
    pub hidden: bool,
    pub tags: Vec<String>,
}

/// Defines the type of a tag. See [`TagOption`].
#[derive(Clone, Copy, Debug, PartialEq, Eq, Structural)]
pub enum TagType {
    Checkboxes,
    Dropdown,
}

impl TagType {
    /// The name of the tag type as the API writes it.
    pub open spec fn name(self) -> Seq<char> {
        match self {
            TagType::Checkboxes => "checkboxes"@,
            TagType::Dropdown => "dropdown"@,
        }
    }

    /// The tag type of an API name, or `None` for a name the API does not
    /// document.
    pub fn parse(value: &str) -> (r: Option<TagType>)
        ensures
            r matches Some(t) ==> t.name() == value@,
            r is None <==> (value@ != "checkboxes"@ && value@ != "dropdown"@),
    {
        if str_eq(value, "checkboxes") {
            Some(TagType::Checkboxes)
        } else if str_eq(value, "dropdown") {
            Some(TagType::Dropdown)
        } else {
            None
        }
    }

    /// The name of the tag type as the API writes it.
    pub fn to_string(&self) -> (r: String)
        ensures
            r@ == self.name(),
    {
        match self {
            TagType::Checkboxes => "checkboxes".to_string(),
            TagType::Dropdown => "dropdown".to_string(),
        }
    }
}

/// Presentation style used on the mod.io website.
#[derive(Clone, Copy, Debug, PartialEq, Eq, Structural)]
pub enum PresentationOption {
    /// Displays mods in a grid.
    GridView,
    /// Displays mods in a table.
    TableView,
    Unknown(u8),
}

/// Whether `n` is the number of one of the documented values of [`PresentationOption`].
pub open spec fn is_presentation_option_number(n: u8) -> bool {
    n == 0 || n == 1
}

impl PresentationOption {
    /// The number of the value as the API writes it.
    pub open spec fn number(self) -> u8 {
        match self {
            PresentationOption::GridView => 0,
            PresentationOption::TableView => 1,
            PresentationOption::Unknown(n) => n,
        }
    }

    /// The value of an API number; numbers not documented become `Unknown`.
    pub fn from_number(n: u8) -> (r: PresentationOption)
        ensures
            r.number() == n,
            r is Unknown <==> !is_presentation_option_number(n),
    {
        if n == 0 {
            PresentationOption::GridView
        } else if n == 1 {
            PresentationOption::TableView
        } else {
            PresentationOption::Unknown(n)
        }
    }

    /// The number of the value as the API writes it.
    pub fn to_number(self) -> (r: u8)
        ensures
            r == self.number(),
    {
        match self {
            PresentationOption::GridView => 0,
            PresentationOption::TableView => 1,
            PresentationOption::Unknown(n) => n,
        }
    }
}

/// Submission process modders must follow.
#[derive(Clone, Copy, Debug, PartialEq, Eq, Structural)]
pub enum SubmissionOption {
    /// Mod uploads must occur via the API using a tool by the game developers.
    ApiOnly,
    /// Mod uploads can occur from anywhere, include the website and API.
    Anywhere,
    Unknown(u8),
}

/// Whether `n` is the number of one of the documented values of [`SubmissionOption`].
pub open spec fn is_submission_option_number(n: u8) -> bool {
    n == 0 || n == 1
}

impl SubmissionOption {
    /// The number of the value as the API writes it.
    pub open spec fn number(self) -> u8 {
        match self {
            SubmissionOption::ApiOnly => 0,
            SubmissionOption::Anywhere => 1,
            SubmissionOption::Unknown(n) => n,
        }
    }

    /// The value of an API number; numbers not documented become `Unknown`.
    pub fn from_number(n: u8) -> (r: SubmissionOption)
        ensures
            r.number() == n,
            r is Unknown <==> !is_submission_option_number(n),
    {
        if n == 0 {
            SubmissionOption::ApiOnly
        } else if n == 1 {
            SubmissionOption::Anywhere
        } else {
            SubmissionOption::Unknown(n)
        }
    }

    /// The number of the value as the API writes it.
    pub fn to_number(self) -> (r: u8)
        ensures
            r == self.number(),
    {
        match self {
            SubmissionOption::ApiOnly => 0,
            SubmissionOption::Anywhere => 1,
            SubmissionOption::Unknown(n) => n,
        }
    }
}

/// Curation process used to approve mods.
#[derive(Clone, Copy, Debug, PartialEq, Eq, Structural)]
pub enum CurationOption {
    /// No curation: Mods are immediately available to play.
    No,
    /// Paid curation: Mods are immediately to play unless they choose to receive
    /// donations. These mods must be accepted to be listed.
    Paid,
    /// Full curation: All mods must be accepted by someone to be listed.
    Full,
    Unknown(u8),
}

/// Whether `n` is the number of one of the documented values of [`CurationOption`].
pub open spec fn is_curation_option_number(n: u8) -> bool {
    n == 0 || n == 1 || n == 2
}

impl CurationOption {
    /// The number of the value as the API writes it.
    pub open spec fn number(self) -> u8 {
        match self {
            CurationOption::No => 0,
            CurationOption::Paid => 1,
            CurationOption::Full => 2,
            CurationOption::Unknown(n) => n,
        }
    }

    /// The value of an API number; numbers not documented become `Unknown`.
    pub fn from_number(n: u8) -> (r: CurationOption)
        ensures
            r.number() == n,
            r is Unknown <==> !is_curation_option_number(n),
    {
        if n == 0 {
            CurationOption::No
        } else if n == 1 {
            CurationOption::Paid
        } else if n == 2 {
            CurationOption::Full
        } else {
            CurationOption::Unknown(n)
        }
    }

    /// The number of the value as the API writes it.
    pub fn to_number(self) -> (r: u8)
        ensures
            r == self.number(),
    {
        match self {
            CurationOption::No => 0,
            CurationOption::Paid => 1,
            CurationOption::Full => 2,
            CurationOption::Unknown(n) => n,
        }
    }
}

/// Option to allow developers to select if they flag their mods containing mature content.
#[derive(Clone, Copy, Debug, PartialEq, Eq, Structural)]
pub enum MaturityOptions {
    NotAllowed,
    /// Allow flagging mods as mature.
    Allowed,
    Unknown(u8),
}

/// Whether `n` is the number of one of the documented values of [`MaturityOptions`].
pub open spec fn is_maturity_options_number(n: u8) -> bool {
    n == 0 || n == 1
}

impl MaturityOptions {
    /// The number of the value as the API writes it.
    pub open spec fn number(self) -> u8 {
        match self {
            MaturityOptions::NotAllowed => 0,
            MaturityOptions::Allowed => 1,
            MaturityOptions::Unknown(n) => n,
        }
    }

    /// The value of an API number; numbers not documented become `Unknown`.
    pub fn from_number(n: u8) -> (r: MaturityOptions)
        ensures
            r.number() == n,
            r is Unknown <==> !is_maturity_options_number(n),
    {
        if n == 0 {
            MaturityOptions::NotAllowed
        } else if n == 1 {
            MaturityOptions::Allowed
        } else {
            MaturityOptions::Unknown(n)
        }
    }

    /// The number of the value as the API writes it.
    pub fn to_number(self) -> (r: u8)
        ensures
            r == self.number(),
    {
        match self {
            MaturityOptions::NotAllowed => 0,
            MaturityOptions::Allowed => 1,
            MaturityOptions::Unknown(n) => n,
        }
    }
}

/// What a number reads as, over every number: 0 as `GridView`, 1 as `TableView`, and every other
/// number as `Unknown` of itself. Any value that [`PresentationOption::from_number`] may
/// give for `n` (one whose number is `n`, and `Unknown` exactly when `n` is
/// not documented) is that value.
pub proof fn lemma_presentation_option_numbers(n: u8, v: PresentationOption)
    requires
        v.number() == n,
        v is Unknown <==> !is_presentation_option_number(n),
    ensures
        n == 0 ==> v == PresentationOption::GridView,
        n == 1 ==> v == PresentationOption::TableView,
        n != 0 && n != 1 ==> v == PresentationOption::Unknown(n),
{
}

/// What a number reads as, over every number: 0 as `ApiOnly`, 1 as `Anywhere`, and every other
/// number as `Unknown` of itself. Any value that [`SubmissionOption::from_number`] may
/// give for `n` (one whose number is `n`, and `Unknown` exactly when `n` is
/// not documented) is that value.
pub proof fn lemma_submission_option_numbers(n: u8, v: SubmissionOption)
    requires
        v.number() == n,
        v is Unknown <==> !is_submission_option_number(n),
    ensures
        n == 0 ==> v == SubmissionOption::ApiOnly,
        n == 1 ==> v == SubmissionOption::Anywhere,
        n != 0 && n != 1 ==> v == SubmissionOption::Unknown(n),
{
}

/// What a number reads as, over every number: 0 as `No`, 1 as `Paid`, 2 as `Full`, and every other
/// number as `Unknown` of itself. Any value that [`CurationOption::from_number`] may
/// give for `n` (one whose number is `n`, and `Unknown` exactly when `n` is
/// not documented) is that value.
pub proof fn lemma_curation_option_numbers(n: u8, v: CurationOption)
    requires
        v.number() == n,
        v is Unknown <==> !is_curation_option_number(n),
    ensures
        n == 0 ==> v == CurationOption::No,
        n == 1 ==> v == CurationOption::Paid,
        n == 2 ==> v == CurationOption::Full,
        n != 0 && n != 1 && n != 2 ==> v == CurationOption::Unknown(n),
{
}

/// What a number reads as, over every number: 0 as `NotAllowed`, 1 as `Allowed`, and every other
/// number as `Unknown` of itself. Any value that [`MaturityOptions::from_number`] may
/// give for `n` (one whose number is `n`, and `Unknown` exactly when `n` is
/// not documented) is that value.
pub proof fn lemma_maturity_options_numbers(n: u8, v: MaturityOptions)
    requires
        v.number() == n,
        v is Unknown <==> !is_maturity_options_number(n),
    ensures
        n == 0 ==> v == MaturityOptions::NotAllowed,
        n == 1 ==> v == MaturityOptions::Allowed,
        n != 0 && n != 1 ==> v == MaturityOptions::Unknown(n),
{
}

/// What every name reads as: `checkboxes` as `Checkboxes`, `dropdown` as
/// `Dropdown`, and no other name as a tag type.
pub proof fn lemma_tag_type_names(s: Seq<char>, t: TagType)
    requires
        t.name() == s,
    ensures
        s == "checkboxes"@ <==> t == TagType::Checkboxes,
        s == "dropdown"@ <==> t == TagType::Dropdown,
{
    reveal_strlit("checkboxes");
    assert("checkboxes"@.len() == 10);
    reveal_strlit("dropdown");
    assert("dropdown"@.len() == 8);
}

} // verus!
