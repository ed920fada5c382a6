//! Types of mods.
use vstd::prelude::*;

use crate::text::{push_signed, signed_decimal, str_eq};
use crate::types::{TargetPlatform, User};
use crate::types::utils::FieldTracker;

verus! {

/// See [Status & Visibility](https://docs.mod.io/#status-amp-visibility) docs for more information.
#[derive(Clone, Copy, Debug, PartialEq, Eq, Structural)]
#[non_exhaustive]
pub enum Visibility {
    Hidden,
    Public,
    Unknown(u8),
}

/// Whether `n` is the number of one of the documented values of [`Visibility`].
pub open spec fn is_visibility_number(n: u8) -> bool {
    n == 0 || n == 1
}

impl Visibility {
    /// The number of the value as the API writes it.
    pub open spec fn number(self) -> u8 {
        match self {
            Visibility::Hidden => 0,
            Visibility::Public => 1,
            Visibility::Unknown(n) => n,
        }
    }

    /// The value of an API number; numbers not documented become `Unknown`.
    pub fn from_number(n: u8) -> (r: Visibility)
        ensures
            r.number() == n,
            r is Unknown <==> !is_visibility_number(n),
    {
        if n == 0 {
            Visibility::Hidden
        } else if n == 1 {
            Visibility::Public
        } else {
            Visibility::Unknown(n)
        }
    }

    /// The number of the value as the API writes it.
    pub fn to_number(self) -> (r: u8)
        ensures
            r == self.number(),
    {
        match self {
            Visibility::Hidden => 0,
            Visibility::Public => 1,
            Visibility::Unknown(n) => n,
        }
    }
}

/// See the [Mod Event Object](https://docs.mod.io/#mod-event-object) docs for more information.
#[derive(Debug)]
pub struct Event {
    pub id: u32,
    pub mod_id: u32,
    pub user_id: u32,
    pub date_added: u64,
    pub event_type: EventType,
}

/// Type of mod event that was triggered.
#[derive(Debug, PartialEq, Eq, Hash)]
#[non_exhaustive]
pub enum EventType {
    /// Primary file changed, the mod should be updated.
    ModfileChanged,
    /// Mod is marked as accepted and public.
    ModAvailable,
    /// Mod is marked as not accepted, deleted or hidden.
    ModUnavailable,
    /// Mod has been updated.
    ModEdited,
    /// Mod has been permanently deleted.
    ModDeleted,
    /// User has joined or left the mod team.
    ModTeamChanged,
    /// A comment has been published for a mod.
    ModCommentAdded,
    /// A comment has been deleted from a mod.
    ModCommentDeleted,
    /// New event types which are not supported yet.
    Unknown(String),
}

/// Whether `s` is the name of one of the mod event types the API documents.
pub open spec fn is_mod_event_name(s: Seq<char>) -> bool {
    ||| s == "MODFILE_CHANGED"@
    ||| s == "MOD_AVAILABLE"@
    ||| s == "MOD_UNAVAILABLE"@
    ||| s == "MOD_EDITED"@
    ||| s == "MOD_DELETED"@
    ||| s == "MOD_TEAM_CHANGED"@
    ||| s == "MOD_COMMENT_ADDED"@
    ||| s == "MOD_COMMENT_DELETED"@
}

impl EventType {
    /// The name of the event type as the API writes it.
    pub open spec fn name(&self) -> Seq<char> {
        match self {
            EventType::ModfileChanged => "MODFILE_CHANGED"@,
            EventType::ModAvailable => "MOD_AVAILABLE"@,
            EventType::ModUnavailable => "MOD_UNAVAILABLE"@,
            EventType::ModEdited => "MOD_EDITED"@,
            EventType::ModDeleted => "MOD_DELETED"@,
            EventType::ModTeamChanged => "MOD_TEAM_CHANGED"@,
            EventType::ModCommentAdded => "MOD_COMMENT_ADDED"@,
            EventType::ModCommentDeleted => "MOD_COMMENT_DELETED"@,
            EventType::Unknown(s) => s@,
        }
    }

    /// `e` is what the name `s` is read as: the event type of that name, or
    /// `Unknown` holding `s` when no documented type has it.
    pub open spec fn is_reading_of(s: Seq<char>, e: EventType) -> bool {
        &&& e.name() == s
        &&& (e is Unknown <==> !is_mod_event_name(s))
    }

    /// The event type of an API name; names not documented become `Unknown`.
    pub fn parse(value: &str) -> (r: EventType)
        ensures
            EventType::is_reading_of(value@, r),
    {
        if str_eq(value, "MODFILE_CHANGED") {
            EventType::ModfileChanged
        } else if str_eq(value, "MOD_AVAILABLE") {
            EventType::ModAvailable
        } else if str_eq(value, "MOD_UNAVAILABLE") {
            EventType::ModUnavailable
        } else if str_eq(value, "MOD_EDITED") {
            EventType::ModEdited
        } else if str_eq(value, "MOD_DELETED") {
            EventType::ModDeleted
        } else if str_eq(value, "MOD_TEAM_CHANGED") {
            EventType::ModTeamChanged
        } else if str_eq(value, "MOD_COMMENT_ADDED") {
            EventType::ModCommentAdded
        } else if str_eq(value, "MOD_COMMENT_DELETED") {
            EventType::ModCommentDeleted
        } else {
            EventType::Unknown(value.to_string())
        }
    }

    /// The name of the event type as the API writes it.
    pub fn to_string(&self) -> (r: String)
        ensures
            r@ == self.name(),
    {
        match self {
            EventType::ModfileChanged => "MODFILE_CHANGED".to_string(),
            EventType::ModAvailable => "MOD_AVAILABLE".to_string(),
            EventType::ModUnavailable => "MOD_UNAVAILABLE".to_string(),
            EventType::ModEdited => "MOD_EDITED".to_string(),
            EventType::ModDeleted => "MOD_DELETED".to_string(),
            EventType::ModTeamChanged => "MOD_TEAM_CHANGED".to_string(),
            EventType::ModCommentAdded => "MOD_COMMENT_ADDED".to_string(),
            EventType::ModCommentDeleted => "MOD_COMMENT_DELETED".to_string(),
            EventType::Unknown(s) => s.clone(),
        }
    }
}

/// The documented mod event names are pairwise distinct.
proof fn lemma_mod_event_names_distinct()
    ensures
        forall|a: EventType, b: EventType|
            !(a is Unknown) && !(b is Unknown) && a.name() == b.name() ==> a == b,
{
    reveal_strlit("MODFILE_CHANGED");
    assert("MODFILE_CHANGED"@.len() == 15);
    reveal_strlit("MOD_AVAILABLE");
    assert("MOD_AVAILABLE"@.len() == 13);
    reveal_strlit("MOD_UNAVAILABLE");
    assert("MOD_UNAVAILABLE"@.len() == 15);
    reveal_strlit("MOD_EDITED");
    assert("MOD_EDITED"@.len() == 10);
    reveal_strlit("MOD_DELETED");
    assert("MOD_DELETED"@.len() == 11);
    reveal_strlit("MOD_TEAM_CHANGED");
    assert("MOD_TEAM_CHANGED"@.len() == 16);
    reveal_strlit("MOD_COMMENT_ADDED");
    assert("MOD_COMMENT_ADDED"@.len() == 17);
    reveal_strlit("MOD_COMMENT_DELETED");
    assert("MOD_COMMENT_DELETED"@.len() == 19);
    assert("MODFILE_CHANGED"@.len() == 15);
    assert("MOD_AVAILABLE"@.len() == 13);
    assert("MOD_UNAVAILABLE"@.len() == 15);
    assert("MOD_EDITED"@.len() == 10);
    assert("MOD_DELETED"@.len() == 11);
    assert("MOD_TEAM_CHANGED"@.len() == 16);
    assert("MOD_COMMENT_ADDED"@.len() == 17);
    assert("MOD_COMMENT_DELETED"@.len() == 19);
    assert("MODFILE_CHANGED"@[3] != "MOD_UNAVAILABLE"@[3]);
}

/// Reading the name of an event type gives that event type back: for a
/// documented type the same variant, for `Unknown` a value with the same
/// text, as long as that text is not itself a documented name.
pub proof fn lemma_mod_event_name_round_trip(e: EventType, r: EventType)
    requires
        e is Unknown ==> !is_mod_event_name(e.name()),
        EventType::is_reading_of(e.name(), r),
    ensures
        e is Unknown ==> r is Unknown && r.name() == e.name(),
        !(e is Unknown) ==> r == e,
{
    lemma_mod_event_names_distinct();
}

/// See the [Mod Dependency Object](https://docs.mod.io/#mod-dependencies-object) docs for more
/// information.
#[derive(Debug)]
pub struct Dependency {
    pub mod_id: u32,
    pub date_added: u64,
}

/// Part of the [Statistics Object](https://docs.mod.io/#mod-stats-object).
#[derive(Debug)]
pub struct Popularity {
    pub rank_position: u32,
    pub rank_total: u32,
}

/// See the [Rating Object](https://docs.mod.io/#rating-object) docs for more information.
#[derive(Debug, PartialEq, Eq, Structural)]
#[non_exhaustive]
pub enum Rating {
    Positive { game_id: u32, mod_id: u32, date_added: u64 },
    Negative { game_id: u32, mod_id: u32, date_added: u64 },
}

/// The message of a rating object whose rating is neither `1` nor `-1`.
pub open spec fn invalid_rating_message(rating: i8) -> Seq<char> {
    "invalid rating value: "@ + signed_decimal(rating as int)
}

impl Rating {
    /// The rating of a rating object's fields: `1` is positive, `-1` is
    /// negative, any other value is an error.
    pub fn from_fields(game_id: u32, mod_id: u32, rating: i8, date_added: u64) -> (r: Result<
        Rating,
        String,
    >)
        ensures
            rating == 1 ==> r == Ok::<Rating, String>(
                Rating::Positive { game_id, mod_id, date_added },
            ),
            rating == -1 ==> r == Ok::<Rating, String>(
                Rating::Negative { game_id, mod_id, date_added },
            ),
            rating != 1 && rating != -1 ==> (r matches Err(m) && m@ == invalid_rating_message(
                rating,
            )),
    {
        if rating == 1 {
            Ok(Rating::Positive { game_id, mod_id, date_added })
        } else if rating == -1 {
            Ok(Rating::Negative { game_id, mod_id, date_added })
        } else {
            let mut m = String::new();
            m.append("invalid rating value: ");
            push_signed(&mut m, rating as i64);
            assert(m@ =~= invalid_rating_message(rating));
            Err(m)
        }
    }
}

/// See the [Mod Platforms Object](https://docs.mod.io/#mod-platforms-object) docs for more information.
#[derive(Debug)]
pub struct Platform {
    pub target: TargetPlatform,
    /// The unique id of the modfile that is currently live on the platform specified in the
    /// `target` field.
    pub modfile_id: u32,
}

/// See the [Mod Tag Object](https://docs.mod.io/#mod-tag-object) docs for more information.
#[derive(Debug)]
pub struct Tag {
    pub name: String,
    pub date_added: u64,
}

impl Tag {
    /// The tag's name.
    pub fn to_string(&self) -> (r: String)
        ensures
            r@ == self.name@,
    {
        self.name.clone()
    }
}

/// Defines the role of a team member.
#[derive(Clone, Copy, Debug, PartialEq, Eq, Structural)]
#[non_exhaustive]
pub enum TeamLevel {
    Moderator,
    Creator,
    Admin,
    Unknown(u8),
}

/// Whether `n` is the number of one of the documented team levels.
pub open spec fn is_team_level_number(n: u8) -> bool {
    n == 1 || n == 4 || n == 8
}

impl TeamLevel {
    /// The number of the level as the API writes it.
    pub open spec fn number(self) -> u8 {
        match self {
            TeamLevel::Moderator => 1,
            TeamLevel::Creator => 4,
            TeamLevel::Admin => 8,
            TeamLevel::Unknown(n) => n,
        }
    }

    /// The level of an API number; numbers not documented become `Unknown`.
    pub fn from_number(n: u8) -> (r: TeamLevel)
        ensures
            r.number() == n,
            r is Unknown <==> !is_team_level_number(n),
    {
        if n == 1 {
            TeamLevel::Moderator
        } else if n == 4 {
            TeamLevel::Creator
        } else if n == 8 {
            TeamLevel::Admin
        } else {
            TeamLevel::Unknown(n)
        }
    }

    /// The number of the level as the API writes it.
    pub fn to_number(self) -> (r: u8)
        ensures
            r == self.number(),
    {
        match self {
            TeamLevel::Moderator => 1,
            TeamLevel::Creator => 4,
            TeamLevel::Admin => 8,
            TeamLevel::Unknown(n) => n,
        }
    }

    /// The number of the level, widened.
    pub fn value(self) -> (r: u64)
        ensures
            r == self.number(),
    {
        self.to_number() as u64
    }
}

/// Reading the number of a level gives the level back, unless it is an
/// `Unknown` holding the number of a documented level.
pub proof fn lemma_team_level_round_trip(l: TeamLevel, r: TeamLevel)
    requires
        l is Unknown ==> !is_team_level_number(l.number()),
        r.number() == l.number(),
        r is Unknown <==> !is_team_level_number(l.number()),
    ensures
        r == l,
{
}

/// The values of a metadata entry as text.
pub open spec fn values_view(v: Seq<String>) -> Seq<Seq<char>> {
    v.map_values(|s: String| s@)
}

/// The map that a list of entries with distinct keys stands for.
pub open spec fn entries_map(es: Seq<(String, Vec<String>)>) -> Map<Seq<char>, Seq<Seq<char>>>
    decreases es.len(),
{
    if es.len() == 0 {
        Map::empty()
    } else {
        entries_map(es.drop_last()).insert(es.last().0@, values_view(es.last().1@))
    }
}

/// No two entries have the same key.
pub open spec fn distinct_keys(es: Seq<(String, Vec<String>)>) -> bool {
    forall|i: int, j: int| 0 <= i < j < es.len() ==> es[i].0@ != es[j].0@
}

/// The key-value pairs grouped by key: each key with its values in the
/// order in which they came.
pub open spec fn grouped(pairs: Seq<(Seq<char>, Seq<char>)>) -> Map<Seq<char>, Seq<Seq<char>>>
    decreases pairs.len(),
{
    if pairs.len() == 0 {
        Map::empty()
    } else {
        let m = grouped(pairs.drop_last());
        let (k, v) = pairs.last();
        m.insert(k, (if m.contains_key(k) { m[k] } else { Seq::empty() }).push(v))
    }
}

/// The values given for `key` in `pairs`, in order.
pub open spec fn values_for(pairs: Seq<(Seq<char>, Seq<char>)>, key: Seq<char>) -> Seq<Seq<char>>
    decreases pairs.len(),
{
    if pairs.len() == 0 {
        Seq::empty()
    } else {
        let rest = values_for(pairs.drop_last(), key);
        if pairs.last().0 == key {
            rest.push(pairs.last().1)
        } else {
            rest
        }
    }
}

proof fn lemma_entries_map_index(es: Seq<(String, Vec<String>)>, i: int)
    requires
        distinct_keys(es),
        0 <= i < es.len(),
    ensures
        entries_map(es).contains_key(es[i].0@),
        entries_map(es)[es[i].0@] == values_view(es[i].1@),
    decreases es.len(),
{
    if i < es.len() - 1 {
        lemma_entries_map_index(es.drop_last(), i);
    }
}

proof fn lemma_entries_map_absent(es: Seq<(String, Vec<String>)>, k: Seq<char>)
    requires
        forall|i: int| 0 <= i < es.len() ==> es[i].0@ != k,
    ensures
        !entries_map(es).contains_key(k),
    decreases es.len(),
{
    if es.len() > 0 {
        lemma_entries_map_absent(es.drop_last(), k);
    }
}

proof fn lemma_entries_map_update(
    es: Seq<(String, Vec<String>)>,
    i: int,
    e: (String, Vec<String>),
)
    requires
        distinct_keys(es),
        0 <= i < es.len(),
        e.0@ == es[i].0@,
    ensures
        entries_map(es.update(i, e)) == entries_map(es).insert(e.0@, values_view(e.1@)),
    decreases es.len(),
{
    let u = es.update(i, e);
    if i == es.len() - 1 {
        assert(u.drop_last() =~= es.drop_last());
        lemma_entries_map_absent(es.drop_last(), e.0@);
        assert(entries_map(u) =~= entries_map(es).insert(e.0@, values_view(e.1@)));
    } else {
        assert(u.drop_last() =~= es.drop_last().update(i, e));
        lemma_entries_map_update(es.drop_last(), i, e);
        assert(entries_map(u) =~= entries_map(es).insert(e.0@, values_view(e.1@)));
    }
}

/// See the [Mod Media Object](https://docs.mod.io/#mod-media-object) docs for more
/// information.
#[derive(Debug)]
pub struct Media {
    pub youtube: Vec<String>,
    pub sketchfab: Vec<String>,
    pub images: Vec<Image>,
}

/// See the [Image Object](https://docs.mod.io/#image-object) docs for more information.
///
/// URLs are kept as text, in the form a URL parser writes them.
#[derive(Debug)]
pub struct Image {
    pub filename: String,
    pub original: String,
    pub thumb_320x180: String,
}

/// See the [Comment Object](https://docs.mod.io/#comment-object) docs for more information.
#[derive(Debug)]
pub struct Comment {
    pub id: u32,
    pub resource_id: u32,
    pub user: User,
    pub date_added: u64,
    pub reply_id: u32,
    pub thread_position: String,
    pub karma: i32,
    pub content: String,
}

/// See the [Team Member Object](https://docs.mod.io/#team-member-object) docs for more
/// information.
#[derive(Debug)]
pub struct TeamMember {
    pub id: u32,
    pub user: User,
    pub level: TeamLevel,
    pub date_added: u64,
    pub position: String,
}

/// See the [Metadata KVP Object](https://docs.mod.io/#metadata-kvp-object) docs for more
/// information.
///
/// Each key maps to the list of values given for it, in the order in which
/// they were given.
#[derive(Debug)]
pub struct MetadataMap {
    entries: Vec<(String, Vec<String>)>,
}

impl View for MetadataMap {
    type V = Map<Seq<char>, Seq<Seq<char>>>;

    closed spec fn view(&self) -> Map<Seq<char>, Seq<Seq<char>>> {
        entries_map(self.entries@)
    }
}

/// Entries whose keys and values read the same stand for the same map.
proof fn lemma_entries_map_same_views(a: Seq<(String, Vec<String>)>, b: Seq<(String, Vec<String>)>)
    requires
        a.len() == b.len(),
        forall|j: int| 0 <= j < a.len() ==> a[j].0@ == b[j].0@ && a[j].1@ == b[j].1@,
    ensures
        entries_map(a) == entries_map(b),
    decreases a.len(),
{
    if a.len() > 0 {
        lemma_entries_map_same_views(a.drop_last(), b.drop_last());
        assert(a.last().1@ == b.last().1@);
    }
}

impl Clone for MetadataMap {
    /// A map with the same keys and values.
    fn clone(&self) -> (r: Self)
        ensures
            r@ == self@,
    {
        proof {
            use_type_invariant(self);
        }
        let mut entries: Vec<(String, Vec<String>)> = Vec::new();
        let mut i: usize = 0;
        while i < self.entries.len()
            invariant
                i <= self.entries@.len(),
                entries@.len() == i,
                distinct_keys(self.entries@),
                forall|j: int|
                    0 <= j < i ==> entries@[j].0@ == self.entries@[j].0@ && entries@[j].1@
                        == self.entries@[j].1@,
            decreases self.entries@.len() - i,
        {
            let key = self.entries[i].0.clone();
            let values = self.entries[i].1.clone();
            proof {
                assert(values@ =~= self.entries@[i as int].1@);
            }
            entries.push((key, values));
            i = i + 1;
        }
        proof {
            lemma_entries_map_same_views(entries@, self.entries@);
        }
        MetadataMap { entries }
    }
}

impl Default for MetadataMap {
    /// An empty map.
    fn default() -> (r: Self)
        ensures
            r@ == Map::<Seq<char>, Seq<Seq<char>>>::empty(),
    {
        MetadataMap::new()
    }
}

impl MetadataMap {
    #[verifier::type_invariant]
    spec fn keys_are_distinct(self) -> bool {
        distinct_keys(self.entries@)
    }

    /// An empty map.
    pub fn new() -> (r: Self)
        ensures
            r@ == Map::<Seq<char>, Seq<Seq<char>>>::empty(),
    {
        MetadataMap { entries: Vec::new() }
    }

    /// An empty map with room for `capacity` keys.
    pub fn with_capacity(capacity: usize) -> (r: Self)
        ensures
            r@ == Map::<Seq<char>, Seq<Seq<char>>>::empty(),
    {
        MetadataMap { entries: Vec::with_capacity(capacity) }
    }

    /// The number of keys.
    pub fn len(&self) -> (r: usize)
        ensures
            r == self@.dom().len(),
    {
        proof {
            use_type_invariant(self);
            lemma_entries_map_len(self.entries@);
        }
        self.entries.len()
    }

    /// Whether the map has no key.
    pub fn is_empty(&self) -> (r: bool)
        ensures
            r <==> self@.dom().len() == 0,
    {
        self.len() == 0
    }

    fn find(&self, key: &str) -> (r: Option<usize>)
        ensures
            r matches Some(i) ==> i < self.entries@.len() && self.entries@[i as int].0@ == key@,
            r is None ==> forall|i: int|
                0 <= i < self.entries@.len() ==> self.entries@[i].0@ != key@,
    {
        let mut i: usize = 0;
        while i < self.entries.len()
            invariant
                i <= self.entries@.len(),
                forall|j: int| 0 <= j < i ==> self.entries@[j].0@ != key@,
            decreases self.entries@.len() - i,
        {
            if str_eq(self.entries[i].0.as_str(), key) {
                return Some(i);
            }
            i = i + 1;
        }
        None
    }

    /// The values of `key`, if the map has it.
    pub fn get(&self, key: &str) -> (r: Option<&Vec<String>>)
        ensures
            r is Some <==> self@.contains_key(key@),
            r matches Some(v) ==> values_view(v@) == self@[key@],
    {
        proof {
            use_type_invariant(self);
        }
        match self.find(key) {
            Some(i) => {
                proof {
                    lemma_entries_map_index(self.entries@, i as int);
                }
                Some(&self.entries[i].1)
            },
            None => {
                proof {
                    lemma_entries_map_absent(self.entries@, key@);
                }
                None
            },
        }
    }

    /// Appends `value` to the values of `key`; a new key starts with this
    /// one value.
    pub fn push(&mut self, key: String, value: String)
        ensures
            final(self)@ == old(self)@.insert(
                key@,
                (if old(self)@.contains_key(key@) {
                    old(self)@[key@]
                } else {
                    Seq::empty()
                }).push(value@),
            ),
    {
        proof {
            use_type_invariant(&*self);
        }
        let found = self.find(key.as_str());
        let mut entries = Vec::new();
        std::mem::swap(&mut entries, &mut self.entries);
        let ghost old_entries = entries@;
        match found {
            Some(i) => {
                proof {
                    lemma_entries_map_index(old_entries, i as int);
                }
                entries[i].1.push(value);
                proof {
                    let e = entries@[i as int];
                    assert(entries@ =~= old_entries.update(i as int, e));
                    assert(values_view(e.1@) =~= values_view(old_entries[i as int].1@).push(
                        value@,
                    ));
                    lemma_entries_map_update(old_entries, i as int, e);
                }
            },
            None => {
                proof {
                    lemma_entries_map_absent(old_entries, key@);
                }
                let mut values = Vec::new();
                values.push(value);
                entries.push((key, values));
                proof {
                    assert(entries@.drop_last() =~= old_entries);
                    assert(values_view(values@) =~= Seq::<Seq<char>>::empty().push(value@));
                }
            },
        }
        self.entries = entries;
    }

    /// The map of a sequence of key-value pairs: each key with the values
    /// given for it, in order.
    pub fn from_pairs(pairs: Vec<(String, String)>) -> (r: Self)
        ensures
            r@ == grouped(pairs@.map_values(|p: (String, String)| (p.0@, p.1@))),
    {
        let ghost ps = pairs@.map_values(|p: (String, String)| (p.0@, p.1@));
        let mut map = MetadataMap::with_capacity(pairs.len());
        let mut i: usize = 0;
        let n = pairs.len();
        while i < n
            invariant
                n == pairs@.len(),
                ps == pairs@.map_values(|p: (String, String)| (p.0@, p.1@)),
                i <= n,
                map@ == grouped(ps.subrange(0, i as int)),
            decreases n - i,
        {
            let k = pairs[i].0.clone();
            let v = pairs[i].1.clone();
            proof {
                assert(ps.subrange(0, i + 1).drop_last() =~= ps.subrange(0, i as int));
                assert(ps.subrange(0, i + 1).last() == ps[i as int]);
            }
            map.push(k, v);
            i = i + 1;
        }
        assert(ps.subrange(0, n as int) =~= ps);
        map
    }
}

proof fn lemma_entries_map_len(es: Seq<(String, Vec<String>)>)
    requires
        distinct_keys(es),
    ensures
        entries_map(es).dom().len() == es.len(),
        entries_map(es).dom().finite(),
    decreases es.len(),
{
    if es.len() > 0 {
        lemma_entries_map_len(es.drop_last());
        lemma_entries_map_absent(es.drop_last(), es.last().0@);
    }
}

/// Grouping key-value pairs keeps, for each key, exactly the values given
/// for it, in the order in which they were given; a key is present exactly
/// when some pair has it.
pub proof fn lemma_grouped_values(pairs: Seq<(Seq<char>, Seq<char>)>, key: Seq<char>)
    ensures
        grouped(pairs).contains_key(key) <==> values_for(pairs, key).len() > 0,
        grouped(pairs).contains_key(key) ==> grouped(pairs)[key] == values_for(pairs, key),
    decreases pairs.len(),
{
    if pairs.len() > 0 {
        lemma_grouped_values(pairs.drop_last(), key);
    }
}

/// The fields of a mod statistics object, in the order in which a missing one
/// is reported.
pub fn statistics_fields() -> (r: FieldTracker)
    ensures
        r@.0 == seq!["mod_id"@, "downloads_today"@, "downloads_total"@, "subscribers_total"@, "popularity_rank_position"@, "popularity_rank_total_mods"@, "ratings_total"@, "ratings_positive"@, "ratings_negative"@, "ratings_percentage_positive"@, "ratings_weighted_aggregate"@, "ratings_display_text"@, "date_expires"@],
        r@.1 == Seq::new(13, |i: int| false),
{
    let names: Vec<&'static str> = vec!["mod_id", "downloads_today", "downloads_total", "subscribers_total", "popularity_rank_position", "popularity_rank_total_mods", "ratings_total", "ratings_positive", "ratings_negative", "ratings_percentage_positive", "ratings_weighted_aggregate", "ratings_display_text", "date_expires"];
    let r = FieldTracker::new(names);
    assert(r@.0 =~= seq!["mod_id"@, "downloads_today"@, "downloads_total"@, "subscribers_total"@, "popularity_rank_position"@, "popularity_rank_total_mods"@, "ratings_total"@, "ratings_positive"@, "ratings_negative"@, "ratings_percentage_positive"@, "ratings_weighted_aggregate"@, "ratings_display_text"@, "date_expires"@]);
    r
}

/// What a number reads as, over every number: 0 as `Hidden`, 1 as `Public`, and every other
/// number as `Unknown` of itself. Any value that [`Visibility::from_number`] may
/// give for `n` (one whose number is `n`, and `Unknown` exactly when `n` is
/// not documented) is that value.
pub proof fn lemma_visibility_numbers(n: u8, v: Visibility)
    requires
        v.number() == n,
        v is Unknown <==> !is_visibility_number(n),
    ensures
        n == 0 ==> v == Visibility::Hidden,
        n == 1 ==> v == Visibility::Public,
        n != 0 && n != 1 ==> v == Visibility::Unknown(n),
{
}

/// What a number reads as, over every number: 1 as `Moderator`, 4 as `Creator`, 8 as `Admin`, and every other
/// number as `Unknown` of itself. Any value that [`TeamLevel::from_number`] may
/// give for `n` (one whose number is `n`, and `Unknown` exactly when `n` is
/// not documented) is that value.
pub proof fn lemma_team_level_numbers(n: u8, v: TeamLevel)
    requires
        v.number() == n,
        v is Unknown <==> !is_team_level_number(n),
    ensures
        n == 1 ==> v == TeamLevel::Moderator,
        n == 4 ==> v == TeamLevel::Creator,
        n == 8 ==> v == TeamLevel::Admin,
        n != 1 && n != 4 && n != 8 ==> v == TeamLevel::Unknown(n),
{
}

/// What every name reads as: `MODFILE_CHANGED` as `ModfileChanged`, `MOD_AVAILABLE` as `ModAvailable`, `MOD_UNAVAILABLE` as `ModUnavailable`, `MOD_EDITED` as `ModEdited`, `MOD_DELETED` as `ModDeleted`, `MOD_TEAM_CHANGED` as `ModTeamChanged`, `MOD_COMMENT_ADDED` as `ModCommentAdded`, `MOD_COMMENT_DELETED` as `ModCommentDeleted`; every other name as `Unknown`
/// holding it. Any value [`EventType::parse`] may give for `s` is that value.
pub proof fn lemma_mod_event_names(s: Seq<char>, e: EventType)
    requires
        EventType::is_reading_of(s, e),
    ensures
        s == "MODFILE_CHANGED"@ ==> e == EventType::ModfileChanged,
        s == "MOD_AVAILABLE"@ ==> e == EventType::ModAvailable,
        s == "MOD_UNAVAILABLE"@ ==> e == EventType::ModUnavailable,
        s == "MOD_EDITED"@ ==> e == EventType::ModEdited,
        s == "MOD_DELETED"@ ==> e == EventType::ModDeleted,
        s == "MOD_TEAM_CHANGED"@ ==> e == EventType::ModTeamChanged,
        s == "MOD_COMMENT_ADDED"@ ==> e == EventType::ModCommentAdded,
        s == "MOD_COMMENT_DELETED"@ ==> e == EventType::ModCommentDeleted,
        s != "MODFILE_CHANGED"@ && s != "MOD_AVAILABLE"@ && s != "MOD_UNAVAILABLE"@ && s != "MOD_EDITED"@ && s != "MOD_DELETED"@ && s != "MOD_TEAM_CHANGED"@ && s != "MOD_COMMENT_ADDED"@ && s != "MOD_COMMENT_DELETED"@ ==> e is Unknown && e.name() == s,
{
    reveal_strlit("MODFILE_CHANGED");
    assert("MODFILE_CHANGED"@.len() == 15);
    reveal_strlit("MOD_AVAILABLE");
    assert("MOD_AVAILABLE"@.len() == 13);
    reveal_strlit("MOD_UNAVAILABLE");
    assert("MOD_UNAVAILABLE"@.len() == 15);
    reveal_strlit("MOD_EDITED");
    assert("MOD_EDITED"@.len() == 10);
    reveal_strlit("MOD_DELETED");
    assert("MOD_DELETED"@.len() == 11);
    reveal_strlit("MOD_TEAM_CHANGED");
    assert("MOD_TEAM_CHANGED"@.len() == 16);
    reveal_strlit("MOD_COMMENT_ADDED");
    assert("MOD_COMMENT_ADDED"@.len() == 17);
    reveal_strlit("MOD_COMMENT_DELETED");
    assert("MOD_COMMENT_DELETED"@.len() == 19);
    assert("MODFILE_CHANGED"@[3] == 'F' && "MOD_UNAVAILABLE"@[3] == '_');
}

/// A rating object reads as positive for the value 1 and negative for -1;
/// every other value is refused with a message naming it in decimal.
pub proof fn lemma_invalid_rating_message(rating: i8)
    ensures
        invalid_rating_message(rating) == "invalid rating value: "@ + signed_decimal(rating as int),
{
}

} // verus!
