//! Data types of the mod.io API.
use std::collections::HashMap;

use vstd::prelude::*;
use vstd::std_specs::cmp::PartialEqSpecImpl;
use vstd::string::*;
use vstd::utf8::*;

use crate::text::{eq_ignore_ascii_case, str_eq, str_eq_ignore_ascii_case};
use crate::types::utils::{lemma_trim_nul_padded, no_trailing_nul, nul_padded, trim_nul, SmallStr};

pub mod auth;
pub mod files;
pub mod games;
pub mod id;
pub mod mods;
pub mod utils;

verus! {

/// See the [Access Token Object](https://docs.mod.io/#access-token-object) docs for more
/// information.
pub struct AccessToken {
    pub value: String,
    pub expired_at: Option<u64>,
}

/// See the [Message Object](https://docs.mod.io/#message-object) docs for more information.
#[derive(Debug)]
pub struct Message {
    pub code: u16,
    pub message: String,
}

/// Result type for editing games, mods and files.
#[derive(Debug)]
#[non_exhaustive]
pub enum Editing<T> {
    Entity(T),
    /// The request was successful however no new data was submitted.
    NoChanges,
}

/// Result type for deleting game tag options, mod media, mod tags and mod dependencies.
#[derive(Debug)]
#[non_exhaustive]
pub enum Deletion {
    Success,
    /// The request was successful however no new data was submitted.
    NoChanges,
}

/// See the [Multiple Item Response](https://docs.mod.io/#response-formats) docs for more
/// information.
#[derive(Debug)]
pub struct List<T> {
    pub data: Vec<T>,
    pub count: u32,
    pub total: u32,
    pub limit: u32,
    pub offset: u32,
}

/// See the [Error Object](https://docs.mod.io/#error-object) docs for more information.
#[derive(Debug)]
pub struct ErrorResponse {
    pub error: Error,
}

/// See the [Error Object](https://docs.mod.io/#error-object) docs for more information.
#[derive(Debug)]
pub struct Error {
    pub code: u16,
    pub error_ref: u16,
    pub message: String,
    pub errors: Option<HashMap<String, String>>,
}

/// See the [User Object](https://docs.mod.io/#user-object) docs for more information.
///
/// An empty avatar object reads as no avatar.
/// URLs are kept as text, in the form a URL parser writes them.
#[derive(Debug)]
pub struct User {
    pub id: u32,
    pub name_id: String,
    pub username: String,
    pub date_online: u32,
    pub avatar: Option<Avatar>,
    pub profile_url: String,
}

/// See the [Avatar Object](https://docs.mod.io/#avatar-object) docs for more information.
///
/// URLs are kept as text, in the form a URL parser writes them.
#[derive(Debug)]
pub struct Avatar {
    pub filename: String,
    pub original: String,
    pub thumb_50x50: String,
    pub thumb_100x100: String,
}

/// See the [Logo Object](https://docs.mod.io/#logo-object) docs for more information.
///
/// URLs are kept as text, in the form a URL parser writes them.
#[derive(Debug)]
pub struct Logo {
    pub filename: String,
    pub original: String,
    pub thumb_320x180: String,
    pub thumb_640x360: String,
    pub thumb_1280x720: String,
}

/// See [Status & Visibility](https://docs.mod.io/#status-amp-visibility) docs for more information.
#[derive(Clone, Copy, Debug, PartialEq, Eq, Structural)]
pub struct Status(u8);

impl View for Status {
    type V = u8;

    closed spec fn view(&self) -> u8 {
        self.0
    }
}

#[allow(non_snake_case)]
impl Status {
    pub fn NOT_ACCEPTED() -> (r: Self)
        ensures
            r@ == 0,
    {
        Status(0)
    }

    pub fn ACCEPTED() -> (r: Self)
        ensures
            r@ == 1,
    {
        Status(1)
    }

    pub fn DELETED() -> (r: Self)
        ensures
            r@ == 3,
    {
        Status(3)
    }

    /// Create a new value from a raw value.
    pub fn new(raw_value: u8) -> (r: Self)
        ensures
            r@ == raw_value,
    {
        Status(raw_value)
    }

    /// Retrieve the raw value.
    pub fn get(self) -> (r: u8)
        ensures
            r == self@,
    {
        self.0
    }
}

/// A platform or portal code that fits its inline storage: ASCII, at most
/// `n` bytes, not ending in a NUL character.
pub open spec fn short_code(code: Seq<char>, n: nat) -> bool {
    &&& is_ascii_chars(code)
    &&& code.len() <= n
    &&& (code.len() > 0 ==> code.last() != '\0')
}

/// A string that satisfies [`short_code`] is stored and read back unchanged.
fn small_code<const N: usize>(code: &str) -> (r: SmallStr<N>)
    requires
        short_code(code@, N as nat),
    ensures
        decode_utf8(r.text()) == code@,
        r.text() == code.spec_bytes(),
{
    proof {
        is_ascii_chars_encode_utf8(code@);
        let b = code.spec_bytes();
        if b.len() > 0 {
            assert(b[b.len() - 1] == code@[code@.len() - 1] as u8);
        }
        encode_utf8_decode_utf8(code@);
    }
    match SmallStr::<N>::from_str(code) {
        Some(s) => {
            proof {
                lemma_trim_nul_padded(code.spec_bytes(), N as nat);
            }
            s
        },
        None => {
            proof {
                assert(false);
            }
            SmallStr::from_bytes(code.as_bytes())
        },
    }
}

/// See the [mod.io docs](https://docs.mod.io/#targeting-a-platform) for more information.
#[derive(Clone, Copy, Debug, Eq, PartialEq)]
pub struct TargetPlatform(SmallStr<16>);

/// The name of a platform for display, for the platforms the API documents;
/// the code itself for any other.
pub open spec fn platform_display_name(code: Seq<char>) -> Seq<char> {
    if code == "android"@ {
        "Android"@
    } else if code == "ios"@ {
        "iOS"@
    } else if code == "linux"@ {
        "Linux"@
    } else if code == "mac"@ {
        "Mac"@
    } else if code == "windows"@ {
        "Windows"@
    } else if code == "ps4"@ {
        "PlayStation 4"@
    } else if code == "ps5"@ {
        "PlayStation 5"@
    } else if code == "source"@ {
        "Source"@
    } else if code == "switch"@ {
        "Nintendo Switch"@
    } else if code == "xboxone"@ {
        "Xbox One"@
    } else if code == "xboxseriesx"@ {
        "Xbox Series X/S"@
    } else if code == "oculus"@ {
        "Oculus"@
    } else {
        code
    }
}

#[allow(non_snake_case)]
impl TargetPlatform {
    /// The platform's code, such as `android`.
    pub closed spec fn code(self) -> Seq<char> {
        decode_utf8(self.0.text())
    }

    /// The bytes of the platform's code.
    pub closed spec fn code_bytes(self) -> Seq<u8> {
        self.0.text()
    }

    fn known(code: &str) -> (r: Self)
        requires
            short_code(code@, 16),
        ensures
            r.code() == code@,
            r.code_bytes() == code.spec_bytes(),
    {
        TargetPlatform(small_code(code))
    }

    /// The platform with the given code, if the code fits in 16 bytes.
    pub fn parse(code: &str) -> (r: Option<Self>)
        ensures
            r is None <==> code.spec_bytes().len() > 16,
            r matches Some(p) ==> p.code_bytes() == trim_nul(nul_padded(code.spec_bytes(), 16)),
            r matches Some(p) ==> no_trailing_nul(code.spec_bytes()) ==> p.code() == code@,
    {
        match SmallStr::<16>::from_str(code) {
            Some(s) => {
                proof {
                    let b = code.spec_bytes();
                    if no_trailing_nul(b) {
                        lemma_trim_nul_padded(b, 16);
                        encode_utf8_decode_utf8(code@);
                    }
                }
                Some(TargetPlatform(s))
            },
            None => None,
        }
    }

    pub fn ANDROID() -> (r: Self)
        ensures
            r.code() == "android"@,
    {
        proof {
            reveal_strlit("android");
        }
        Self::known("android")
    }

    pub fn IOS() -> (r: Self)
        ensures
            r.code() == "ios"@,
    {
        proof {
            reveal_strlit("ios");
        }
        Self::known("ios")
    }

    pub fn LINUX() -> (r: Self)
        ensures
            r.code() == "linux"@,
    {
        proof {
            reveal_strlit("linux");
        }
        Self::known("linux")
    }

    pub fn MAC() -> (r: Self)
        ensures
            r.code() == "mac"@,
    {
        proof {
            reveal_strlit("mac");
        }
        Self::known("mac")
    }

    pub fn WINDOWS() -> (r: Self)
        ensures
            r.code() == "windows"@,
    {
        proof {
            reveal_strlit("windows");
        }
        Self::known("windows")
    }

    pub fn PS4() -> (r: Self)
        ensures
            r.code() == "ps4"@,
    {
        proof {
            reveal_strlit("ps4");
        }
        Self::known("ps4")
    }

    pub fn PS5() -> (r: Self)
        ensures
            r.code() == "ps5"@,
    {
        proof {
            reveal_strlit("ps5");
        }
        Self::known("ps5")
    }

    pub fn SOURCE() -> (r: Self)
        ensures
            r.code() == "source"@,
    {
        proof {
            reveal_strlit("source");
        }
        Self::known("source")
    }

    pub fn SWITCH() -> (r: Self)
        ensures
            r.code() == "switch"@,
    {
        proof {
            reveal_strlit("switch");
        }
        Self::known("switch")
    }

    pub fn XBOX_ONE() -> (r: Self)
        ensures
            r.code() == "xboxone"@,
    {
        proof {
            reveal_strlit("xboxone");
        }
        Self::known("xboxone")
    }

    pub fn XBOX_SERIES_X() -> (r: Self)
        ensures
            r.code() == "xboxseriesx"@,
    {
        proof {
            reveal_strlit("xboxseriesx");
        }
        Self::known("xboxseriesx")
    }

    pub fn OCULUS() -> (r: Self)
        ensures
            r.code() == "oculus"@,
    {
        proof {
            reveal_strlit("oculus");
        }
        Self::known("oculus")
    }

    /// The platform's code, such as `android`.
    pub fn as_str(&self) -> (r: &str)
        ensures
            r@ == self.code(),
            r.spec_bytes() == self.code_bytes(),
    {
        self.0.as_str()
    }

    /// The name of the platform for display, such as `PlayStation 5`.
    pub fn display_name(&self) -> (r: &str)
        ensures
            r@ == platform_display_name(self.code()),
    {
        let s = self.as_str();
        if str_eq(s, "android") {
            "Android"
        } else if str_eq(s, "ios") {
            "iOS"
        } else if str_eq(s, "linux") {
            "Linux"
        } else if str_eq(s, "mac") {
            "Mac"
        } else if str_eq(s, "windows") {
            "Windows"
        } else if str_eq(s, "ps4") {
            "PlayStation 4"
        } else if str_eq(s, "ps5") {
            "PlayStation 5"
        } else if str_eq(s, "source") {
            "Source"
        } else if str_eq(s, "switch") {
            "Nintendo Switch"
        } else if str_eq(s, "xboxone") {
            "Xbox One"
        } else if str_eq(s, "xboxseriesx") {
            "Xbox Series X/S"
        } else if str_eq(s, "oculus") {
            "Oculus"
        } else {
            s
        }
    }

    /// The name of the platform for display, as a new string.
    pub fn to_string(&self) -> (r: String)
        ensures
            r@ == platform_display_name(self.code()),
    {
        self.display_name().to_string()
    }
}

impl PartialEq<&str> for TargetPlatform {
    fn eq(&self, other: &&str) -> (r: bool) {
        str_eq_ignore_ascii_case(self.as_str(), *other)
    }
}

impl PartialEqSpecImpl<&str> for TargetPlatform {
    open spec fn obeys_eq_spec() -> bool {
        true
    }

    open spec fn eq_spec(&self, other: &&str) -> bool {
        eq_ignore_ascii_case(self.code_bytes(), other.spec_bytes())
    }
}

impl PartialEq<TargetPlatform> for &str {
    fn eq(&self, other: &TargetPlatform) -> (r: bool) {
        str_eq_ignore_ascii_case(*self, other.as_str())
    }
}

impl PartialEqSpecImpl<TargetPlatform> for &str {
    open spec fn obeys_eq_spec() -> bool {
        true
    }

    open spec fn eq_spec(&self, other: &TargetPlatform) -> bool {
        eq_ignore_ascii_case(self.spec_bytes(), other.code_bytes())
    }
}

/// See the [mod.io docs](https://docs.mod.io/#targeting-a-portal) for more information.
#[derive(Clone, Copy, Debug, Eq, PartialEq)]
pub struct TargetPortal(SmallStr<12>);

#[allow(non_snake_case)]
impl TargetPortal {
    /// The portal's code, such as `steam`.
    pub closed spec fn code(self) -> Seq<char> {
        decode_utf8(self.0.text())
    }

    /// The bytes of the portal's code.
    pub closed spec fn code_bytes(self) -> Seq<u8> {
        self.0.text()
    }

    fn known(code: &str) -> (r: Self)
        requires
            short_code(code@, 12),
        ensures
            r.code() == code@,
            r.code_bytes() == code.spec_bytes(),
    {
        TargetPortal(small_code(code))
    }

    /// The portal with the given code, if the code fits in 12 bytes.
    pub fn parse(code: &str) -> (r: Option<Self>)
        ensures
            r is None <==> code.spec_bytes().len() > 12,
            r matches Some(p) ==> p.code_bytes() == trim_nul(nul_padded(code.spec_bytes(), 12)),
            r matches Some(p) ==> no_trailing_nul(code.spec_bytes()) ==> p.code() == code@,
    {
        match SmallStr::<12>::from_str(code) {
            Some(s) => {
                proof {
                    let b = code.spec_bytes();
                    if no_trailing_nul(b) {
                        lemma_trim_nul_padded(b, 12);
                        encode_utf8_decode_utf8(code@);
                    }
                }
                Some(TargetPortal(s))
            },
            None => None,
        }
    }

    pub fn STEAM() -> (r: Self)
        ensures
            r.code() == "steam"@,
    {
        proof {
            reveal_strlit("steam");
        }
        Self::known("steam")
    }

    pub fn GOG() -> (r: Self)
        ensures
            r.code() == "gog"@,
    {
        proof {
            reveal_strlit("gog");
        }
        Self::known("gog")
    }

    pub fn EGS() -> (r: Self)
        ensures
            r.code() == "egs"@,
    {
        proof {
            reveal_strlit("egs");
        }
        Self::known("egs")
    }

    pub fn ITCHIO() -> (r: Self)
        ensures
            r.code() == "itchio"@,
    {
        proof {
            reveal_strlit("itchio");
        }
        Self::known("itchio")
    }

    pub fn NINTENDO() -> (r: Self)
        ensures
            r.code() == "nintendo"@,
    {
        proof {
            reveal_strlit("nintendo");
        }
        Self::known("nintendo")
    }

    pub fn PSN() -> (r: Self)
        ensures
            r.code() == "psn"@,
    {
        proof {
            reveal_strlit("psn");
        }
        Self::known("psn")
    }

    pub fn XBOX_LIVE() -> (r: Self)
        ensures
            r.code() == "xboxlive"@,
    {
        proof {
            reveal_strlit("xboxlive");
        }
        Self::known("xboxlive")
    }

    pub fn APPLE() -> (r: Self)
        ensures
            r.code() == "apple"@,
    {
        proof {
            reveal_strlit("apple");
        }
        Self::known("apple")
    }

    pub fn GOOGLE() -> (r: Self)
        ensures
            r.code() == "google"@,
    {
        proof {
            reveal_strlit("google");
        }
        Self::known("google")
    }

    pub fn FACEBOOK() -> (r: Self)
        ensures
            r.code() == "facebook"@,
    {
        proof {
            reveal_strlit("facebook");
        }
        Self::known("facebook")
    }

    pub fn DISCORD() -> (r: Self)
        ensures
            r.code() == "discord"@,
    {
        proof {
            reveal_strlit("discord");
        }
        Self::known("discord")
    }

    /// The portal's code, such as `steam`.
    pub fn as_str(&self) -> (r: &str)
        ensures
            r@ == self.code(),
            r.spec_bytes() == self.code_bytes(),
    {
        self.0.as_str()
    }
}

impl PartialEq<&str> for TargetPortal {
    fn eq(&self, other: &&str) -> (r: bool) {
        str_eq_ignore_ascii_case(self.as_str(), *other)
    }
}

impl PartialEqSpecImpl<&str> for TargetPortal {
    open spec fn obeys_eq_spec() -> bool {
        true
    }

    open spec fn eq_spec(&self, other: &&str) -> bool {
        eq_ignore_ascii_case(self.code_bytes(), other.spec_bytes())
    }
}

impl PartialEq<TargetPortal> for &str {
    fn eq(&self, other: &TargetPortal) -> (r: bool) {
        str_eq_ignore_ascii_case(*self, other.as_str())
    }
}

impl PartialEqSpecImpl<TargetPortal> for &str {
    open spec fn obeys_eq_spec() -> bool {
        true
    }

    open spec fn eq_spec(&self, other: &TargetPortal) -> bool {
        eq_ignore_ascii_case(self.spec_bytes(), other.code_bytes())
    }
}

/// See the [User Event Object](https://docs.mod.io/#user-event-object) docs for more information.
#[derive(Debug)]
pub struct Event {
    pub id: u32,
    pub game_id: u32,
    pub mod_id: u32,
    pub user_id: u32,
    pub date_added: u64,
    pub event_type: EventType,
}

/// Type of user event that was triggered.
#[derive(Debug, PartialEq, Eq, Hash)]
#[non_exhaustive]
pub enum EventType {
    /// User has joined a team.
    UserTeamJoin,
    /// User has left a team.
    UserTeamLeave,
    /// User has subscribed to a mod.
    UserSubscribe,
    /// User has unsubscribed to a mod.
    UserUnsubscribe,
    /// New event types which are not supported yet.
    Unknown(String),
}

/// Whether `s` is the name of one of the user event types the API documents.
pub open spec fn is_user_event_name(s: Seq<char>) -> bool {
    s == "USER_TEAM_JOIN"@ || s == "USER_TEAM_LEAVE"@ || s == "USER_SUBSCRIBE"@ || s
        == "USER_UNSUBSCRIBE"@
}

impl EventType {
    /// The name of the event type as the API writes it.
    pub open spec fn name(&self) -> Seq<char> {
        match self {
            EventType::UserTeamJoin => "USER_TEAM_JOIN"@,
            EventType::UserTeamLeave => "USER_TEAM_LEAVE"@,
            EventType::UserSubscribe => "USER_SUBSCRIBE"@,
            EventType::UserUnsubscribe => "USER_UNSUBSCRIBE"@,
            EventType::Unknown(s) => s@,
        }
    }

    /// `e` is what the name `s` is read as: the event type of that name, or
    /// `Unknown` holding `s` when no documented type has it.
    pub open spec fn is_reading_of(s: Seq<char>, e: EventType) -> bool {
        &&& e.name() == s
        &&& (e is Unknown <==> !is_user_event_name(s))
    }

    /// The event type of an API name; names not documented become `Unknown`.
    pub fn parse(value: &str) -> (r: EventType)
        ensures
            EventType::is_reading_of(value@, r),
    {
        if str_eq(value, "USER_TEAM_JOIN") {
            EventType::UserTeamJoin
        } else if str_eq(value, "USER_TEAM_LEAVE") {
            EventType::UserTeamLeave
        } else if str_eq(value, "USER_SUBSCRIBE") {
            EventType::UserSubscribe
        } else if str_eq(value, "USER_UNSUBSCRIBE") {
            EventType::UserUnsubscribe
        } else {
            EventType::Unknown(value.to_string())
        }
    }

    /// The name of the event type as the API writes it.
    pub fn to_string(&self) -> (r: String)
        ensures
            r@ == self.name(),
    {
        match self {
            EventType::UserTeamJoin => "USER_TEAM_JOIN".to_string(),
            EventType::UserTeamLeave => "USER_TEAM_LEAVE".to_string(),
            EventType::UserSubscribe => "USER_SUBSCRIBE".to_string(),
            EventType::UserUnsubscribe => "USER_UNSUBSCRIBE".to_string(),
            EventType::Unknown(s) => s.clone(),
        }
    }
}

/// The documented user event names are pairwise distinct.
proof fn lemma_user_event_names_distinct()
    ensures
        "USER_TEAM_JOIN"@ != "USER_TEAM_LEAVE"@,
        "USER_TEAM_JOIN"@ != "USER_SUBSCRIBE"@,
        "USER_TEAM_JOIN"@ != "USER_UNSUBSCRIBE"@,
        "USER_TEAM_LEAVE"@ != "USER_SUBSCRIBE"@,
        "USER_TEAM_LEAVE"@ != "USER_UNSUBSCRIBE"@,
        "USER_SUBSCRIBE"@ != "USER_UNSUBSCRIBE"@,
{
    reveal_strlit("USER_TEAM_JOIN");
    assert("USER_TEAM_JOIN"@.len() == 14);
    reveal_strlit("USER_TEAM_LEAVE");
    assert("USER_TEAM_LEAVE"@.len() == 15);
    reveal_strlit("USER_SUBSCRIBE");
    assert("USER_SUBSCRIBE"@.len() == 14);
    reveal_strlit("USER_UNSUBSCRIBE");
    assert("USER_UNSUBSCRIBE"@.len() == 16);
    assert("USER_TEAM_JOIN"@.len() != "USER_TEAM_LEAVE"@.len());
    assert("USER_TEAM_JOIN"@[5] != "USER_SUBSCRIBE"@[5]);
    assert("USER_TEAM_JOIN"@.len() != "USER_UNSUBSCRIBE"@.len());
    assert("USER_TEAM_LEAVE"@.len() != "USER_SUBSCRIBE"@.len());
    assert("USER_TEAM_LEAVE"@[5] != "USER_UNSUBSCRIBE"@[5]);
    assert("USER_SUBSCRIBE"@.len() != "USER_UNSUBSCRIBE"@.len());
}

/// Reading the name of an event type gives that event type back: for a
/// documented type the same variant, for `Unknown` a value with the same
/// text, as long as that text is not itself a documented name.
pub proof fn lemma_user_event_name_round_trip(e: EventType, r: EventType)
    requires
        e is Unknown ==> !is_user_event_name(e.name()),
        EventType::is_reading_of(e.name(), r),
    ensures
        e is Unknown ==> r is Unknown && r.name() == e.name(),
        !(e is Unknown) ==> r == e,
{
    lemma_user_event_names_distinct();
}

/// What every name reads as: `USER_TEAM_JOIN` as `UserTeamJoin`, `USER_TEAM_LEAVE` as `UserTeamLeave`, `USER_SUBSCRIBE` as `UserSubscribe`, `USER_UNSUBSCRIBE` as `UserUnsubscribe`; every other name as `Unknown`
/// holding it. Any value [`EventType::parse`] may give for `s` is that value.
pub proof fn lemma_user_event_names(s: Seq<char>, e: EventType)
    requires
        EventType::is_reading_of(s, e),
    ensures
        s == "USER_TEAM_JOIN"@ ==> e == EventType::UserTeamJoin,
        s == "USER_TEAM_LEAVE"@ ==> e == EventType::UserTeamLeave,
        s == "USER_SUBSCRIBE"@ ==> e == EventType::UserSubscribe,
        s == "USER_UNSUBSCRIBE"@ ==> e == EventType::UserUnsubscribe,
        s != "USER_TEAM_JOIN"@ && s != "USER_TEAM_LEAVE"@ && s != "USER_SUBSCRIBE"@ && s != "USER_UNSUBSCRIBE"@ ==> e is Unknown && e.name() == s,
{
    reveal_strlit("USER_TEAM_JOIN");
    assert("USER_TEAM_JOIN"@.len() == 14);
    reveal_strlit("USER_TEAM_LEAVE");
    assert("USER_TEAM_LEAVE"@.len() == 15);
    reveal_strlit("USER_SUBSCRIBE");
    assert("USER_SUBSCRIBE"@.len() == 14);
    reveal_strlit("USER_UNSUBSCRIBE");
    assert("USER_UNSUBSCRIBE"@.len() == 16);
    assert("USER_TEAM_JOIN"@[5] == 'T' && "USER_SUBSCRIBE"@[5] == 'S');
}

/// The display name of every platform code: the name the API gives each
/// documented platform, such as `PlayStation 4` for `ps4`, and the code
/// itself for any other.
pub proof fn lemma_platform_display_names(code: Seq<char>)
    ensures
        code == "android"@ ==> platform_display_name(code) == "Android"@,
        code == "ios"@ ==> platform_display_name(code) == "iOS"@,
        code == "linux"@ ==> platform_display_name(code) == "Linux"@,
        code == "mac"@ ==> platform_display_name(code) == "Mac"@,
        code == "windows"@ ==> platform_display_name(code) == "Windows"@,
        code == "ps4"@ ==> platform_display_name(code) == "PlayStation 4"@,
        code == "ps5"@ ==> platform_display_name(code) == "PlayStation 5"@,
        code == "source"@ ==> platform_display_name(code) == "Source"@,
        code == "switch"@ ==> platform_display_name(code) == "Nintendo Switch"@,
        code == "xboxone"@ ==> platform_display_name(code) == "Xbox One"@,
        code == "xboxseriesx"@ ==> platform_display_name(code) == "Xbox Series X/S"@,
        code == "oculus"@ ==> platform_display_name(code) == "Oculus"@,
        code != "android"@ && code != "ios"@ && code != "linux"@ && code != "mac"@ && code != "windows"@ && code != "ps4"@ && code != "ps5"@ && code != "source"@ && code != "switch"@ && code != "xboxone"@ && code != "xboxseriesx"@ && code != "oculus"@ ==> platform_display_name(code) == code,
{
    reveal_strlit("android");
    assert("android"@.len() == 7);
    reveal_strlit("ios");
    assert("ios"@.len() == 3);
    reveal_strlit("linux");
    assert("linux"@.len() == 5);
    reveal_strlit("mac");
    assert("mac"@.len() == 3);
    reveal_strlit("windows");
    assert("windows"@.len() == 7);
    reveal_strlit("ps4");
    assert("ps4"@.len() == 3);
    reveal_strlit("ps5");
    assert("ps5"@.len() == 3);
    reveal_strlit("source");
    assert("source"@.len() == 6);
    reveal_strlit("switch");
    assert("switch"@.len() == 6);
    reveal_strlit("xboxone");
    assert("xboxone"@.len() == 7);
    reveal_strlit("xboxseriesx");
    assert("xboxseriesx"@.len() == 11);
    reveal_strlit("oculus");
    assert("oculus"@.len() == 6);
    assert("android"@[0] == 'a' && "windows"@[0] == 'w');
    assert("android"@[0] == 'a' && "xboxone"@[0] == 'x');
    assert("ios"@[0] == 'i' && "mac"@[0] == 'm');
    assert("ios"@[0] == 'i' && "ps4"@[0] == 'p');
    assert("ios"@[0] == 'i' && "ps5"@[0] == 'p');
    assert("mac"@[0] == 'm' && "ps4"@[0] == 'p');
    assert("mac"@[0] == 'm' && "ps5"@[0] == 'p');
    assert("windows"@[0] == 'w' && "xboxone"@[0] == 'x');
    assert("ps4"@[2] == '4' && "ps5"@[2] == '5');
    assert("source"@[1] == 'o' && "switch"@[1] == 'w');
    assert("source"@[0] == 's' && "oculus"@[0] == 'o');
    assert("switch"@[0] == 's' && "oculus"@[0] == 'o');
}

} // verus!
