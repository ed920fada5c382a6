//! Routes of the API as the client interfaces name them.
pub mod tables;
use vstd::prelude::*;
use vstd::string::*;

use crate::method::Method;
use crate::text::{push_query_flag, push_seg1, push_seg2, push_seg3, query_flag, seg1, seg2, seg3};
use crate::types::id::{CommentId, FileId, GameId, ModId, UserId};

verus! {

/// An endpoint of the mod.io API, with the IDs that its path holds.
#[derive(Clone, Copy, Debug)]
#[non_exhaustive]
pub enum Route {
    AddFile {
        game_id: GameId,
        mod_id: ModId,
    },
    AddGameMedia {
        game_id: GameId,
    },
    AddGameTags {
        game_id: GameId,
    },
    AddMod {
        game_id: GameId,
    },
    AddModComment {
        game_id: GameId,
        mod_id: ModId,
    },
    AddModCommentKarma {
        game_id: GameId,
        mod_id: ModId,
        comment_id: CommentId,
    },
    AddModDependencies {
        game_id: GameId,
        mod_id: ModId,
    },
    AddModMedia {
        game_id: GameId,
        mod_id: ModId,
    },
    AddModMetadata {
        game_id: GameId,
        mod_id: ModId,
    },
    AddModTags {
        game_id: GameId,
        mod_id: ModId,
    },
    DeleteFile {
        game_id: GameId,
        mod_id: ModId,
        file_id: FileId,
    },
    DeleteGameTags {
        game_id: GameId,
    },
    DeleteMod {
        game_id: GameId,
        mod_id: ModId,
    },
    DeleteModComment {
        game_id: GameId,
        mod_id: ModId,
        comment_id: CommentId,
    },
    DeleteModDependencies {
        game_id: GameId,
        mod_id: ModId,
    },
    DeleteModMedia {
        game_id: GameId,
        mod_id: ModId,
    },
    DeleteModMetadata {
        game_id: GameId,
        mod_id: ModId,
    },
    DeleteModTags {
        game_id: GameId,
        mod_id: ModId,
    },
    EditFile {
        game_id: GameId,
        mod_id: ModId,
        file_id: FileId,
    },
    EditMod {
        game_id: GameId,
        mod_id: ModId,
    },
    EditModComment {
        game_id: GameId,
        mod_id: ModId,
        comment_id: CommentId,
    },
    ExternalAuthDiscord,
    #[allow(dead_code)]
    ExternalAuthEpic,
    ExternalAuthGoogle,
    ExternalAuthMeta,
    #[allow(dead_code)]
    ExternalAuthOpenID,
    #[allow(dead_code)]
    ExternalAuthPSN,
    ExternalAuthSteam,
    ExternalAuthSwitch,
    ExternalAuthXbox,
    GetFile {
        game_id: GameId,
        mod_id: ModId,
        file_id: FileId,
    },
    GetFiles {
        game_id: GameId,
        mod_id: ModId,
    },
    GetGame {
        id: GameId,
        show_hidden_tags: Option<bool>,
    },
    GetGames {
        show_hidden_tags: Option<bool>,
    },
    GetGameStats {
        game_id: GameId,
    },
    GetGameTags {
        game_id: GameId,
    },
    GetMod {
        game_id: GameId,
        mod_id: ModId,
    },
    GetModComment {
        game_id: GameId,
        mod_id: ModId,
        comment_id: CommentId,
    },
    GetModComments {
        game_id: GameId,
        mod_id: ModId,
    },
    GetModDependencies {
        game_id: GameId,
        mod_id: ModId,
    },
    GetModEvents {
        game_id: GameId,
        mod_id: ModId,
    },
    GetModMetadata {
        game_id: GameId,
        mod_id: ModId,
    },
    GetModStats {
        game_id: GameId,
        mod_id: ModId,
    },
    GetModTags {
        game_id: GameId,
        mod_id: ModId,
    },
    GetModTeamMembers {
        game_id: GameId,
        mod_id: ModId,
    },
    GetMods {
        game_id: GameId,
    },
    GetModsEvents {
        game_id: GameId,
    },
    GetModsStats {
        game_id: GameId,
    },
    ManagePlatformStatus {
        game_id: GameId,
        mod_id: ModId,
        file_id: FileId,
    },
    MuteUser {
        user_id: UserId,
    },
    OAuthEmailRequest,
    OAuthEmailExchange,
    OAuthLogout,
    RateMod {
        game_id: GameId,
        mod_id: ModId,
    },
    RenameGameTags {
        game_id: GameId,
    },
    #[allow(dead_code)]
    ReorderModMedia {
        game_id: GameId,
        mod_id: ModId,
    },
    SubmitReport,
    SubscribeToMod {
        game_id: GameId,
        mod_id: ModId,
    },
    Terms,
    UnmuteUser {
        user_id: UserId,
    },
    UnsubscribeFromMod {
        game_id: GameId,
        mod_id: ModId,
    },
    UserAuthenticated,
    UserEvents,
    UserFiles,
    UserGames,
    UserMods,
    UserMuted,
    UserRatings,
    UserSubscriptions,
}

/// What a request for a route needs: its method, its path and whether it
/// must carry the access token.
pub struct Parts {
    pub method: Method,
    pub path: String,
    pub token_required: bool,
}

impl Route {
    /// The routes that are read with `GET`.
    pub open spec fn is_get(self) -> bool {
        ||| self is GetFile
        ||| self is GetFiles
        ||| self is GetGame
        ||| self is GetGames
        ||| self is GetGameStats
        ||| self is GetGameTags
        ||| self is GetMod
        ||| self is GetModComment
        ||| self is GetModComments
        ||| self is GetModDependencies
        ||| self is GetModEvents
        ||| self is GetModMetadata
        ||| self is GetMods
        ||| self is GetModsEvents
        ||| self is GetModsStats
        ||| self is GetModStats
        ||| self is GetModTags
        ||| self is GetModTeamMembers
        ||| self is Terms
        ||| self is UserAuthenticated
        ||| self is UserEvents
        ||| self is UserFiles
        ||| self is UserGames
        ||| self is UserMods
        ||| self is UserRatings
        ||| self is UserSubscriptions
        ||| self is UserMuted
    }

    /// The routes that are sent with `POST`.
    pub open spec fn is_post(self) -> bool {
        ||| self is AddFile
        ||| self is AddGameMedia
        ||| self is AddGameTags
        ||| self is AddMod
        ||| self is AddModComment
        ||| self is AddModCommentKarma
        ||| self is AddModDependencies
        ||| self is AddModMedia
        ||| self is AddModMetadata
        ||| self is AddModTags
        ||| self is ExternalAuthDiscord
        ||| self is ExternalAuthEpic
        ||| self is ExternalAuthGoogle
        ||| self is ExternalAuthMeta
        ||| self is ExternalAuthOpenID
        ||| self is ExternalAuthPSN
        ||| self is ExternalAuthSteam
        ||| self is ExternalAuthSwitch
        ||| self is ExternalAuthXbox
        ||| self is ManagePlatformStatus
        ||| self is MuteUser
        ||| self is OAuthEmailRequest
        ||| self is OAuthEmailExchange
        ||| self is OAuthLogout
        ||| self is RateMod
        ||| self is SubmitReport
        ||| self is SubscribeToMod
    }

    /// The routes that are sent with `PUT`.
    pub open spec fn is_put(self) -> bool {
        ||| self is EditMod
        ||| self is EditModComment
        ||| self is EditFile
        ||| self is RenameGameTags
        ||| self is ReorderModMedia
    }

    /// The routes that are sent with `DELETE`.
    pub open spec fn is_delete(self) -> bool {
        ||| self is DeleteFile
        ||| self is DeleteGameTags
        ||| self is DeleteMod
        ||| self is DeleteModComment
        ||| self is DeleteModDependencies
        ||| self is DeleteModMedia
        ||| self is DeleteModMetadata
        ||| self is DeleteModTags
        ||| self is UnmuteUser
        ||| self is UnsubscribeFromMod
    }

    /// The routes that can be requested without an access token.
    pub open spec fn is_public(self) -> bool {
        ||| self is ExternalAuthDiscord
        ||| self is ExternalAuthEpic
        ||| self is ExternalAuthGoogle
        ||| self is ExternalAuthMeta
        ||| self is ExternalAuthOpenID
        ||| self is ExternalAuthPSN
        ||| self is ExternalAuthSteam
        ||| self is ExternalAuthSwitch
        ||| self is ExternalAuthXbox
        ||| self is GetFile
        ||| self is GetFiles
        ||| self is GetGame
        ||| self is GetGames
        ||| self is GetGameStats
        ||| self is GetGameTags
        ||| self is GetMod
        ||| self is GetModComment
        ||| self is GetModComments
        ||| self is GetModDependencies
        ||| self is GetModEvents
        ||| self is GetModMetadata
        ||| self is GetMods
        ||| self is GetModsEvents
        ||| self is GetModsStats
        ||| self is GetModStats
        ||| self is GetModTags
        ||| self is GetModTeamMembers
        ||| self is OAuthEmailRequest
        ||| self is OAuthEmailExchange
        ||| self is Terms
    }

    /// The HTTP method of a route.
    pub open spec fn method_of(self) -> Method {
        if self.is_get() {
            Method::Get
        } else if self.is_post() {
            Method::Post
        } else if self.is_put() {
            Method::Put
        } else {
            Method::Delete
        }
    }

    /// The HTTP method the route is requested with.
    pub fn method(&self) -> (m: Method)
        ensures
            m == self.method_of(),
    {
        match self {
            Self::GetFile { .. }
            | Self::GetFiles { .. }
            | Self::GetGame { .. }
            | Self::GetGames { .. }
            | Self::GetGameStats { .. }
            | Self::GetGameTags { .. }
            | Self::GetMod { .. }
            | Self::GetModComment { .. }
            | Self::GetModComments { .. }
            | Self::GetModDependencies { .. }
            | Self::GetModEvents { .. }
            | Self::GetModMetadata { .. }
            | Self::GetMods { .. }
            | Self::GetModsEvents { .. }
            | Self::GetModsStats { .. }
            | Self::GetModStats { .. }
            | Self::GetModTags { .. }
            | Self::GetModTeamMembers { .. }
            | Self::Terms
            | Self::UserAuthenticated
            | Self::UserEvents
            | Self::UserFiles
            | Self::UserGames
            | Self::UserMods
            | Self::UserRatings
            | Self::UserSubscriptions
            | Self::UserMuted => Method::Get,
            Self::AddFile { .. }
            | Self::AddGameMedia { .. }
            | Self::AddGameTags { .. }
            | Self::AddMod { .. }
            | Self::AddModComment { .. }
            | Self::AddModCommentKarma { .. }
            | Self::AddModDependencies { .. }
            | Self::AddModMedia { .. }
            | Self::AddModMetadata { .. }
            | Self::AddModTags { .. }
            | Self::ExternalAuthDiscord
            | Self::ExternalAuthEpic
            | Self::ExternalAuthGoogle
            | Self::ExternalAuthMeta
            | Self::ExternalAuthOpenID
            | Self::ExternalAuthPSN
            | Self::ExternalAuthSteam
            | Self::ExternalAuthSwitch
            | Self::ExternalAuthXbox
            | Self::ManagePlatformStatus { .. }
            | Self::MuteUser { .. }
            | Self::OAuthEmailRequest
            | Self::OAuthEmailExchange
            | Self::OAuthLogout
            | Self::RateMod { .. }
            | Self::SubmitReport
            | Self::SubscribeToMod { .. } => Method::Post,
            Self::EditMod { .. }
            | Self::EditModComment { .. }
            | Self::EditFile { .. }
            | Self::RenameGameTags { .. }
            | Self::ReorderModMedia { .. } => Method::Put,
            Self::DeleteFile { .. }
            | Self::DeleteGameTags { .. }
            | Self::DeleteMod { .. }
            | Self::DeleteModComment { .. }
            | Self::DeleteModDependencies { .. }
            | Self::DeleteModMedia { .. }
            | Self::DeleteModMetadata { .. }
            | Self::DeleteModTags { .. }
            | Self::UnmuteUser { .. }
            | Self::UnsubscribeFromMod { .. } => Method::Delete,
        }
    }

    /// Whether a request for the route must carry the access token.
    pub fn token_required(&self) -> (b: bool)
        ensures
            b == !self.is_public(),
    {
        match self {
            Self::ExternalAuthDiscord
            | Self::ExternalAuthEpic
            | Self::ExternalAuthGoogle
            | Self::ExternalAuthMeta
            | Self::ExternalAuthOpenID
            | Self::ExternalAuthPSN
            | Self::ExternalAuthSteam
            | Self::ExternalAuthSwitch
            | Self::ExternalAuthXbox
            | Self::GetFile { .. }
            | Self::GetFiles { .. }
            | Self::GetGame { .. }
            | Self::GetGames { .. }
            | Self::GetGameStats { .. }
            | Self::GetGameTags { .. }
            | Self::GetMod { .. }
            | Self::GetModComment { .. }
            | Self::GetModComments { .. }
            | Self::GetModDependencies { .. }
            | Self::GetModEvents { .. }
            | Self::GetModMetadata { .. }
            | Self::GetMods { .. }
            | Self::GetModsEvents { .. }
            | Self::GetModsStats { .. }
            | Self::GetModStats { .. }
            | Self::GetModTags { .. }
            | Self::GetModTeamMembers { .. }
            | Self::OAuthEmailRequest
            | Self::OAuthEmailExchange
            | Self::Terms => false,
            _ => true,
        }
    }

    /// The path of the route, relative to the base URL of the API.
    pub open spec fn path_text(self) -> Seq<char> {
        match self {
            Route::AddFile { game_id, mod_id } => seg2("/games/"@, game_id@ as nat, "/mods/"@, mod_id@ as nat, "/files"@),
            Route::AddGameMedia { game_id } => seg1("/games/"@, game_id@ as nat, "/media"@),
            Route::AddGameTags { game_id } => seg1("/games/"@, game_id@ as nat, "/tags"@),
            Route::AddMod { game_id } => seg1("/games/"@, game_id@ as nat, "/mods"@),
            Route::AddModComment { game_id, mod_id } => seg2("/games/"@, game_id@ as nat, "/mods/"@, mod_id@ as nat, "/comments"@),
            Route::AddModCommentKarma { game_id, mod_id, comment_id } => seg3("/games/"@, game_id@ as nat, "/mods/"@, mod_id@ as nat, "/comments/"@, comment_id@ as nat, "/karma"@),
            Route::AddModDependencies { game_id, mod_id } => seg2("/games/"@, game_id@ as nat, "/mods/"@, mod_id@ as nat, "/dependencies"@),
            Route::AddModMedia { game_id, mod_id } => seg2("/games/"@, game_id@ as nat, "/mods/"@, mod_id@ as nat, "/media"@),
            Route::AddModMetadata { game_id, mod_id } => seg2("/games/"@, game_id@ as nat, "/mods/"@, mod_id@ as nat, "/metadatakvp"@),
            Route::AddModTags { game_id, mod_id } => seg2("/games/"@, game_id@ as nat, "/mods/"@, mod_id@ as nat, "/tags"@),
            Route::DeleteFile { game_id, mod_id, file_id } => seg3("/games/"@, game_id@ as nat, "/mods/"@, mod_id@ as nat, "/files/"@, file_id@ as nat, ""@),
            Route::DeleteGameTags { game_id } => seg1("/games/"@, game_id@ as nat, "/tags"@),
            Route::DeleteMod { game_id, mod_id } => seg2("/games/"@, game_id@ as nat, "/mods/"@, mod_id@ as nat, ""@),
            Route::DeleteModComment { game_id, mod_id, comment_id } => seg3("/games/"@, game_id@ as nat, "/mods/"@, mod_id@ as nat, "/comments/"@, comment_id@ as nat, ""@),
            Route::DeleteModDependencies { game_id, mod_id } => seg2("/games/"@, game_id@ as nat, "/mods/"@, mod_id@ as nat, "/dependencies"@),
            Route::DeleteModMedia { game_id, mod_id } => seg2("/games/"@, game_id@ as nat, "/mods/"@, mod_id@ as nat, "/media"@),
            Route::DeleteModMetadata { game_id, mod_id } => seg2("/games/"@, game_id@ as nat, "/mods/"@, mod_id@ as nat, "/metadatakvp"@),
            Route::DeleteModTags { game_id, mod_id } => seg2("/games/"@, game_id@ as nat, "/mods/"@, mod_id@ as nat, "/tags"@),
            Route::EditFile { game_id, mod_id, file_id } => seg3("/games/"@, game_id@ as nat, "/mods/"@, mod_id@ as nat, "/files/"@, file_id@ as nat, ""@),
            Route::EditMod { game_id, mod_id } => seg2("/games/"@, game_id@ as nat, "/mods/"@, mod_id@ as nat, ""@),
            Route::EditModComment { game_id, mod_id, comment_id } => seg3("/games/"@, game_id@ as nat, "/mods/"@, mod_id@ as nat, "/comments/"@, comment_id@ as nat, ""@),
            Route::ExternalAuthDiscord => "/external/discordauth"@,
            Route::ExternalAuthEpic => "/external/epicgamesauth"@,
            Route::ExternalAuthGoogle => "/external/googleauth"@,
            Route::ExternalAuthMeta => "/external/oculusauth"@,
            Route::ExternalAuthOpenID => "/external/openidauth"@,
            Route::ExternalAuthPSN => "/external/psnauth"@,
            Route::ExternalAuthSteam => "/external/steamauth"@,
            Route::ExternalAuthSwitch => "/external/switchauth"@,
            Route::ExternalAuthXbox => "/external/xboxauth"@,
            Route::GetFile { game_id, mod_id, file_id } => seg3("/games/"@, game_id@ as nat, "/mods/"@, mod_id@ as nat, "/files/"@, file_id@ as nat, ""@),
            Route::GetFiles { game_id, mod_id } => seg2("/games/"@, game_id@ as nat, "/mods/"@, mod_id@ as nat, "/files"@),
            Route::GetGame { id, show_hidden_tags } => seg1("/games/"@, id@ as nat, ""@) + query_flag("?show_hidden_tags="@, show_hidden_tags),
            Route::GetGames { show_hidden_tags } => "/games"@ + query_flag("?show_hidden_tags="@, show_hidden_tags),
            Route::GetGameStats { game_id } => seg1("/games/"@, game_id@ as nat, "/stats"@),
            Route::GetGameTags { game_id } => seg1("/games/"@, game_id@ as nat, "/tags"@),
            Route::GetMod { game_id, mod_id } => seg2("/games/"@, game_id@ as nat, "/mods/"@, mod_id@ as nat, ""@),
            Route::GetModComment { game_id, mod_id, comment_id } => seg3("/games/"@, game_id@ as nat, "/mods/"@, mod_id@ as nat, "/comments/"@, comment_id@ as nat, ""@),
            Route::GetModComments { game_id, mod_id } => seg2("/games/"@, game_id@ as nat, "/mods/"@, mod_id@ as nat, "/comments"@),
            Route::GetModDependencies { game_id, mod_id } => seg2("/games/"@, game_id@ as nat, "/mods/"@, mod_id@ as nat, "/dependencies"@),
            Route::GetModEvents { game_id, mod_id } => seg2("/games/"@, game_id@ as nat, "/mods/"@, mod_id@ as nat, "/events"@),
            Route::GetModMetadata { game_id, mod_id } => seg2("/games/"@, game_id@ as nat, "/mods/"@, mod_id@ as nat, "/metadatakvp"@),
            Route::GetModStats { game_id, mod_id } => seg2("/games/"@, game_id@ as nat, "/mods/"@, mod_id@ as nat, "/stats"@),
            Route::GetModTags { game_id, mod_id } => seg2("/games/"@, game_id@ as nat, "/mods/"@, mod_id@ as nat, "/tags"@),
            Route::GetModTeamMembers { game_id, mod_id } => seg2("/games/"@, game_id@ as nat, "/mods/"@, mod_id@ as nat, "/team"@),
            Route::GetMods { game_id } => seg1("/games/"@, game_id@ as nat, "/mods"@),
            Route::GetModsEvents { game_id } => seg1("/games/"@, game_id@ as nat, "/mods/events"@),
            Route::GetModsStats { game_id } => seg1("/games/"@, game_id@ as nat, "/mods/stats"@),
            Route::ManagePlatformStatus { game_id, mod_id, file_id } => seg3("/games/"@, game_id@ as nat, "/mods/"@, mod_id@ as nat, "/files/"@, file_id@ as nat, "/platforms"@),
            Route::MuteUser { user_id } => seg1("/users/"@, user_id@ as nat, "/mute"@),
            Route::OAuthEmailRequest => "/oauth/emailrequest"@,
            Route::OAuthEmailExchange => "/oauth/emailexchange"@,
            Route::OAuthLogout => "/oauth/logout"@,
            Route::RateMod { game_id, mod_id } => seg2("/games/"@, game_id@ as nat, "/mods/"@, mod_id@ as nat, "/ratings"@),
            Route::RenameGameTags { game_id } => seg1("/games/"@, game_id@ as nat, "/tags/rename"@),
            Route::ReorderModMedia { game_id, mod_id } => seg2("/games/"@, game_id@ as nat, "/mods/"@, mod_id@ as nat, "/media/reorder"@),
            Route::SubmitReport => "/report"@,
            Route::SubscribeToMod { game_id, mod_id } => seg2("/games/"@, game_id@ as nat, "/mods/"@, mod_id@ as nat, "/subscribe"@),
            Route::Terms => "/authenticate/terms"@,
            Route::UnmuteUser { user_id } => seg1("/users/"@, user_id@ as nat, "/mute"@),
            Route::UnsubscribeFromMod { game_id, mod_id } => seg2("/games/"@, game_id@ as nat, "/mods/"@, mod_id@ as nat, "/subscribe"@),
            Route::UserAuthenticated => "/me"@,
            Route::UserEvents => "/me/events"@,
            Route::UserFiles => "/me/files"@,
            Route::UserGames => "/me/games"@,
            Route::UserMods => "/me/mods"@,
            Route::UserMuted => "/me/users/muted"@,
            Route::UserRatings => "/me/ratings"@,
            Route::UserSubscriptions => "/me/subscribed"@,
        }
    }

    /// Appends the path of the route to `s`.
    #[verifier::spinoff_prover]
    fn push_path(&self, s: &mut String)
        ensures
            final(s)@ == old(s)@ + self.path_text(),
    {
        let ghost s0 = s@;
        match *self {
            Route::AddFile { game_id, mod_id } => {
                push_seg2(s, "/games/", game_id.get(), "/mods/", mod_id.get(), "/files");
            },
            Route::AddGameMedia { game_id } => {
                push_seg1(s, "/games/", game_id.get(), "/media");
            },
            Route::AddGameTags { game_id } => {
                push_seg1(s, "/games/", game_id.get(), "/tags");
            },
            Route::AddMod { game_id } => {
                push_seg1(s, "/games/", game_id.get(), "/mods");
            },
            Route::AddModComment { game_id, mod_id } => {
                push_seg2(s, "/games/", game_id.get(), "/mods/", mod_id.get(), "/comments");
            },
            Route::AddModCommentKarma { game_id, mod_id, comment_id } => {
                push_seg3(s, "/games/", game_id.get(), "/mods/", mod_id.get(), "/comments/", comment_id.get(), "/karma");
            },
            Route::AddModDependencies { game_id, mod_id } => {
                push_seg2(s, "/games/", game_id.get(), "/mods/", mod_id.get(), "/dependencies");
            },
            Route::AddModMedia { game_id, mod_id } => {
                push_seg2(s, "/games/", game_id.get(), "/mods/", mod_id.get(), "/media");
            },
            Route::AddModMetadata { game_id, mod_id } => {
                push_seg2(s, "/games/", game_id.get(), "/mods/", mod_id.get(), "/metadatakvp");
            },
            Route::AddModTags { game_id, mod_id } => {
                push_seg2(s, "/games/", game_id.get(), "/mods/", mod_id.get(), "/tags");
            },
            Route::DeleteFile { game_id, mod_id, file_id } => {
                push_seg3(s, "/games/", game_id.get(), "/mods/", mod_id.get(), "/files/", file_id.get(), "");
            },
            Route::DeleteGameTags { game_id } => {
                push_seg1(s, "/games/", game_id.get(), "/tags");
            },
            Route::DeleteMod { game_id, mod_id } => {
                push_seg2(s, "/games/", game_id.get(), "/mods/", mod_id.get(), "");
            },
            Route::DeleteModComment { game_id, mod_id, comment_id } => {
                push_seg3(s, "/games/", game_id.get(), "/mods/", mod_id.get(), "/comments/", comment_id.get(), "");
            },
            Route::DeleteModDependencies { game_id, mod_id } => {
                push_seg2(s, "/games/", game_id.get(), "/mods/", mod_id.get(), "/dependencies");
            },
            Route::DeleteModMedia { game_id, mod_id } => {
                push_seg2(s, "/games/", game_id.get(), "/mods/", mod_id.get(), "/media");
            },
            Route::DeleteModMetadata { game_id, mod_id } => {
                push_seg2(s, "/games/", game_id.get(), "/mods/", mod_id.get(), "/metadatakvp");
            },
            Route::DeleteModTags { game_id, mod_id } => {
                push_seg2(s, "/games/", game_id.get(), "/mods/", mod_id.get(), "/tags");
            },
            Route::EditFile { game_id, mod_id, file_id } => {
                push_seg3(s, "/games/", game_id.get(), "/mods/", mod_id.get(), "/files/", file_id.get(), "");
            },
            Route::EditMod { game_id, mod_id } => {
                push_seg2(s, "/games/", game_id.get(), "/mods/", mod_id.get(), "");
            },
            Route::EditModComment { game_id, mod_id, comment_id } => {
                push_seg3(s, "/games/", game_id.get(), "/mods/", mod_id.get(), "/comments/", comment_id.get(), "");
            },
            Route::ExternalAuthDiscord => {
                s.append("/external/discordauth");
            },
            Route::ExternalAuthEpic => {
                s.append("/external/epicgamesauth");
            },
            Route::ExternalAuthGoogle => {
                s.append("/external/googleauth");
            },
            Route::ExternalAuthMeta => {
                s.append("/external/oculusauth");
            },
            Route::ExternalAuthOpenID => {
                s.append("/external/openidauth");
            },
            Route::ExternalAuthPSN => {
                s.append("/external/psnauth");
            },
            Route::ExternalAuthSteam => {
                s.append("/external/steamauth");
            },
            Route::ExternalAuthSwitch => {
                s.append("/external/switchauth");
            },
            Route::ExternalAuthXbox => {
                s.append("/external/xboxauth");
            },
            Route::GetFile { game_id, mod_id, file_id } => {
                push_seg3(s, "/games/", game_id.get(), "/mods/", mod_id.get(), "/files/", file_id.get(), "");
            },
            Route::GetFiles { game_id, mod_id } => {
                push_seg2(s, "/games/", game_id.get(), "/mods/", mod_id.get(), "/files");
            },
            Route::GetGame { id, show_hidden_tags } => {
                push_seg1(s, "/games/", id.get(), "");
                push_query_flag(s, "?show_hidden_tags=", show_hidden_tags);
                assert(s@ =~= s0 + self.path_text());
            },
            Route::GetGames { show_hidden_tags } => {
                s.append("/games");
                push_query_flag(s, "?show_hidden_tags=", show_hidden_tags);
                assert(s@ =~= s0 + self.path_text());
            },
            Route::GetGameStats { game_id } => {
                push_seg1(s, "/games/", game_id.get(), "/stats");
            },
            Route::GetGameTags { game_id } => {
                push_seg1(s, "/games/", game_id.get(), "/tags");
            },
            Route::GetMod { game_id, mod_id } => {
                push_seg2(s, "/games/", game_id.get(), "/mods/", mod_id.get(), "");
            },
            Route::GetModComment { game_id, mod_id, comment_id } => {
                push_seg3(s, "/games/", game_id.get(), "/mods/", mod_id.get(), "/comments/", comment_id.get(), "");
            },
            Route::GetModComments { game_id, mod_id } => {
                push_seg2(s, "/games/", game_id.get(), "/mods/", mod_id.get(), "/comments");
            },
            Route::GetModDependencies { game_id, mod_id } => {
                push_seg2(s, "/games/", game_id.get(), "/mods/", mod_id.get(), "/dependencies");
            },
            Route::GetModEvents { game_id, mod_id } => {
                push_seg2(s, "/games/", game_id.get(), "/mods/", mod_id.get(), "/events");
            },
            Route::GetModMetadata { game_id, mod_id } => {
                push_seg2(s, "/games/", game_id.get(), "/mods/", mod_id.get(), "/metadatakvp");
            },
            Route::GetModStats { game_id, mod_id } => {
                push_seg2(s, "/games/", game_id.get(), "/mods/", mod_id.get(), "/stats");
            },
            Route::GetModTags { game_id, mod_id } => {
                push_seg2(s, "/games/", game_id.get(), "/mods/", mod_id.get(), "/tags");
            },
            Route::GetModTeamMembers { game_id, mod_id } => {
                push_seg2(s, "/games/", game_id.get(), "/mods/", mod_id.get(), "/team");
            },
            Route::GetMods { game_id } => {
                push_seg1(s, "/games/", game_id.get(), "/mods");
            },
            Route::GetModsEvents { game_id } => {
                push_seg1(s, "/games/", game_id.get(), "/mods/events");
            },
            Route::GetModsStats { game_id } => {
                push_seg1(s, "/games/", game_id.get(), "/mods/stats");
            },
            Route::ManagePlatformStatus { game_id, mod_id, file_id } => {
                push_seg3(s, "/games/", game_id.get(), "/mods/", mod_id.get(), "/files/", file_id.get(), "/platforms");
            },
            Route::MuteUser { user_id } => {
                push_seg1(s, "/users/", user_id.get(), "/mute");
            },
            Route::OAuthEmailRequest => {
                s.append("/oauth/emailrequest");
            },
            Route::OAuthEmailExchange => {
                s.append("/oauth/emailexchange");
            },
            Route::OAuthLogout => {
                s.append("/oauth/logout");
            },
            Route::RateMod { game_id, mod_id } => {
                push_seg2(s, "/games/", game_id.get(), "/mods/", mod_id.get(), "/ratings");
            },
            Route::RenameGameTags { game_id } => {
                push_seg1(s, "/games/", game_id.get(), "/tags/rename");
            },
            Route::ReorderModMedia { game_id, mod_id } => {
                push_seg2(s, "/games/", game_id.get(), "/mods/", mod_id.get(), "/media/reorder");
            },
            Route::SubmitReport => {
                s.append("/report");
            },
            Route::SubscribeToMod { game_id, mod_id } => {
                push_seg2(s, "/games/", game_id.get(), "/mods/", mod_id.get(), "/subscribe");
            },
            Route::Terms => {
                s.append("/authenticate/terms");
            },
            Route::UnmuteUser { user_id } => {
                push_seg1(s, "/users/", user_id.get(), "/mute");
            },
            Route::UnsubscribeFromMod { game_id, mod_id } => {
                push_seg2(s, "/games/", game_id.get(), "/mods/", mod_id.get(), "/subscribe");
            },
            Route::UserAuthenticated => {
                s.append("/me");
            },
            Route::UserEvents => {
                s.append("/me/events");
            },
            Route::UserFiles => {
                s.append("/me/files");
            },
            Route::UserGames => {
                s.append("/me/games");
            },
            Route::UserMods => {
                s.append("/me/mods");
            },
            Route::UserMuted => {
                s.append("/me/users/muted");
            },
            Route::UserRatings => {
                s.append("/me/ratings");
            },
            Route::UserSubscriptions => {
                s.append("/me/subscribed");
            },
        }
    }

    /// The path of the route as text, such as `/games/1/mods/2/files`.
    pub fn to_string(&self) -> (s: String)
        ensures
            s@ == self.path_text(),
    {
        let mut s = String::new();
        self.push_path(&mut s);
        assert(s@ =~= self.path_text());
        s
    }

    /// The method, path and token requirement of the route.
    pub fn into_parts(self) -> (p: Parts)
        ensures
            p.method == self.method_of(),
            p.path@ == self.path_text(),
            p.token_required == !self.is_public(),
    {
        Parts { method: self.method(), path: self.to_string(), token_required: self.token_required() }
    }
}

/// Every path starts with `/`.
#[verifier::spinoff_prover]
#[verifier::rlimit(60)]
pub proof fn lemma_path_starts_with_slash(r: Route)
    ensures
        r.path_text().len() > 0,
        r.path_text()[0] == '/',
{
    reveal_strlit("/authenticate/terms");
    reveal_strlit("/external/discordauth");
    reveal_strlit("/external/epicgamesauth");
    reveal_strlit("/external/googleauth");
    reveal_strlit("/external/oculusauth");
    reveal_strlit("/external/openidauth");
    reveal_strlit("/external/psnauth");
    reveal_strlit("/external/steamauth");
    reveal_strlit("/external/switchauth");
    reveal_strlit("/external/xboxauth");
    reveal_strlit("/games");
    reveal_strlit("/games/");
    reveal_strlit("/me");
    reveal_strlit("/me/events");
    reveal_strlit("/me/files");
    reveal_strlit("/me/games");
    reveal_strlit("/me/mods");
    reveal_strlit("/me/ratings");
    reveal_strlit("/me/subscribed");
    reveal_strlit("/me/users/muted");
    reveal_strlit("/oauth/emailexchange");
    reveal_strlit("/oauth/emailrequest");
    reveal_strlit("/oauth/logout");
    reveal_strlit("/report");
    reveal_strlit("/users/");
}

} // verus!
