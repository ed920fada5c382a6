//! Requests of the authenticated user's own resources.
//!
//! Each request is described by the route it goes to and, for the listing
//! requests, the filter that is sent with it; the filter is carried as it
//! was given.
use vstd::prelude::*;

use crate::request::routing::Route;
use crate::types::id::UserId;

verus! {

/// Get the authenticated user details.
pub struct GetAuthenticatedUser;

impl GetAuthenticatedUser {
    pub fn new() -> (r: Self) {
        GetAuthenticatedUser
    }

    /// The route of the request.
    pub fn into_request(self) -> (r: Route)
        ensures
            r == Route::UserAuthenticated,
    {
        Route::UserAuthenticated
    }
}

/// Get all users muted by the authenticated user.
pub struct GetMutedUsers<F> {
    filter: Option<F>,
}

impl<F> GetMutedUsers<F> {
    /// The filter that will be sent with the request.
    pub closed spec fn current_filter(&self) -> Option<F> {
        self.filter
    }

    /// A request without a filter.
    pub fn new() -> (r: Self)
        ensures
            r.current_filter() == None::<F>,
    {
        GetMutedUsers { filter: None }
    }

    /// The same request with `filter` sent along, in place of any earlier one.
    pub fn filter(self, filter: F) -> (r: Self)
        ensures
            r.current_filter() == Some(filter),
    {
        GetMutedUsers { filter: Some(filter) }
    }

    /// The route of the request and the filter sent with it.
    pub fn into_request(self) -> (r: (Route, Option<F>))
        ensures
            r.0 == Route::UserMuted,
            r.1 == self.current_filter(),
    {
        (Route::UserMuted, self.filter)
    }
}

/// Get events that have been fired specific to the authenticated user.
pub struct GetUserEvents<F> {
    filter: Option<F>,
}

impl<F> GetUserEvents<F> {
    /// The filter that will be sent with the request.
    pub closed spec fn current_filter(&self) -> Option<F> {
        self.filter
    }

    /// A request without a filter.
    pub fn new() -> (r: Self)
        ensures
            r.current_filter() == None::<F>,
    {
        GetUserEvents { filter: None }
    }

    /// The same request with `filter` sent along, in place of any earlier one.
    pub fn filter(self, filter: F) -> (r: Self)
        ensures
            r.current_filter() == Some(filter),
    {
        GetUserEvents { filter: Some(filter) }
    }

    /// The route of the request and the filter sent with it.
    pub fn into_request(self) -> (r: (Route, Option<F>))
        ensures
            r.0 == Route::UserEvents,
            r.1 == self.current_filter(),
    {
        (Route::UserEvents, self.filter)
    }
}

/// Get all modfiles the authenticated user uploaded.
pub struct GetUserFiles<F> {
    filter: Option<F>,
}

impl<F> GetUserFiles<F> {
    /// The filter that will be sent with the request.
    pub closed spec fn current_filter(&self) -> Option<F> {
        self.filter
    }

    /// A request without a filter.
    pub fn new() -> (r: Self)
        ensures
            r.current_filter() == None::<F>,
    {
        GetUserFiles { filter: None }
    }

    /// The same request with `filter` sent along, in place of any earlier one.
    pub fn filter(self, filter: F) -> (r: Self)
        ensures
            r.current_filter() == Some(filter),
    {
        GetUserFiles { filter: Some(filter) }
    }

    /// The route of the request and the filter sent with it.
    pub fn into_request(self) -> (r: (Route, Option<F>))
        ensures
            r.0 == Route::UserFiles,
            r.1 == self.current_filter(),
    {
        (Route::UserFiles, self.filter)
    }
}

/// Get all games the authenticated user added or is a team member of.
pub struct GetUserGames<F> {
    filter: Option<F>,
}

impl<F> GetUserGames<F> {
    /// The filter that will be sent with the request.
    pub closed spec fn current_filter(&self) -> Option<F> {
        self.filter
    }

    /// A request without a filter.
    pub fn new() -> (r: Self)
        ensures
            r.current_filter() == None::<F>,
    {
        GetUserGames { filter: None }
    }

    /// The same request with `filter` sent along, in place of any earlier one.
    pub fn filter(self, filter: F) -> (r: Self)
        ensures
            r.current_filter() == Some(filter),
    {
        GetUserGames { filter: Some(filter) }
    }

    /// The route of the request and the filter sent with it.
    pub fn into_request(self) -> (r: (Route, Option<F>))
        ensures
            r.0 == Route::UserGames,
            r.1 == self.current_filter(),
    {
        (Route::UserGames, self.filter)
    }
}

/// Get all mods the authenticated user added or is a team member of.
pub struct GetUserMods<F> {
    filter: Option<F>,
}

impl<F> GetUserMods<F> {
    /// The filter that will be sent with the request.
    pub closed spec fn current_filter(&self) -> Option<F> {
        self.filter
    }

    /// A request without a filter.
    pub fn new() -> (r: Self)
        ensures
            r.current_filter() == None::<F>,
    {
        GetUserMods { filter: None }
    }

    /// The same request with `filter` sent along, in place of any earlier one.
    pub fn filter(self, filter: F) -> (r: Self)
        ensures
            r.current_filter() == Some(filter),
    {
        GetUserMods { filter: Some(filter) }
    }

    /// The route of the request and the filter sent with it.
    pub fn into_request(self) -> (r: (Route, Option<F>))
        ensures
            r.0 == Route::UserMods,
            r.1 == self.current_filter(),
    {
        (Route::UserMods, self.filter)
    }
}

/// Get all mod ratings submitted by the authenticated user.
pub struct GetUserRatings<F> {
    filter: Option<F>,
}

impl<F> GetUserRatings<F> {
    /// The filter that will be sent with the request.
    pub closed spec fn current_filter(&self) -> Option<F> {
        self.filter
    }

    /// A request without a filter.
    pub fn new() -> (r: Self)
        ensures
            r.current_filter() == None::<F>,
    {
        GetUserRatings { filter: None }
    }

    /// The same request with `filter` sent along, in place of any earlier one.
    pub fn filter(self, filter: F) -> (r: Self)
        ensures
            r.current_filter() == Some(filter),
    {
        GetUserRatings { filter: Some(filter) }
    }

    /// The route of the request and the filter sent with it.
    pub fn into_request(self) -> (r: (Route, Option<F>))
        ensures
            r.0 == Route::UserRatings,
            r.1 == self.current_filter(),
    {
        (Route::UserRatings, self.filter)
    }
}

/// Mute a user.
pub struct MuteUser {
    user_id: UserId,
}

impl MuteUser {
    /// The user the request is about.
    pub closed spec fn user(&self) -> UserId {
        self.user_id
    }

    pub fn new(user_id: UserId) -> (r: Self)
        ensures
            r.user() == user_id,
    {
        MuteUser { user_id }
    }

    /// The route of the request.
    pub fn into_request(self) -> (r: Route)
        ensures
            r == (Route::MuteUser { user_id: self.user() }),
    {
        Route::MuteUser { user_id: self.user_id }
    }
}

/// Unmute a previously muted user.
pub struct UnmuteUser {
    user_id: UserId,
}

impl UnmuteUser {
    /// The user the request is about.
    pub closed spec fn user(&self) -> UserId {
        self.user_id
    }

    pub fn new(user_id: UserId) -> (r: Self)
        ensures
            r.user() == user_id,
    {
        UnmuteUser { user_id }
    }

    /// The route of the request.
    pub fn into_request(self) -> (r: Route)
        ensures
            r == (Route::UnmuteUser { user_id: self.user() }),
    {
        Route::UnmuteUser { user_id: self.user_id }
    }
}

} // verus!
