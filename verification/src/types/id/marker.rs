//! Markers for the resource types an ID can name.
use vstd::prelude::*;

verus! {

/// Marker for game IDs.
#[derive(Debug, Hash, PartialEq, Eq, PartialOrd, Ord)]
#[non_exhaustive]
pub struct GameMarker;

/// Marker for mod IDs.
#[derive(Debug, Hash, PartialEq, Eq, PartialOrd, Ord)]
#[non_exhaustive]
pub struct ModMarker;

/// Marker for file IDs.
#[derive(Debug, Hash, PartialEq, Eq, PartialOrd, Ord)]
#[non_exhaustive]
pub struct FileMarker;

/// Marker for event IDs.
#[derive(Debug, Hash, PartialEq, Eq, PartialOrd, Ord)]
#[non_exhaustive]
pub struct EventMarker;

/// Marker for comment IDs.
#[derive(Debug, Hash, PartialEq, Eq, PartialOrd, Ord)]
#[non_exhaustive]
pub struct CommentMarker;

/// Marker for user IDs.
#[derive(Debug, Hash, PartialEq, Eq, PartialOrd, Ord)]
#[non_exhaustive]
pub struct UserMarker;

/// Marker for team member IDs.
#[derive(Debug, Hash, PartialEq, Eq, PartialOrd, Ord)]
#[non_exhaustive]
pub struct MemberMarker;

/// Marker for resource IDs.
#[derive(Debug, Hash, PartialEq, Eq, PartialOrd, Ord)]
#[non_exhaustive]
pub struct ResourceMarker;

} // verus!
