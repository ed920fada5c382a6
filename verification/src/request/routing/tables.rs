//! What the API documents for each route of the requests.
//!
//! Each statement lists, for every route, what the API documents for it:
//! its method, whether it needs the access token, and its path.
use vstd::prelude::*;

use crate::method::Method;
use crate::text::decimal;
use crate::request::routing::Route;

verus! {

/// The method of every route: reads with `GET`; creating, rating,
/// subscribing, muting, reporting and the authentication calls with
/// `POST`; edits, renames and reorderings with `PUT`; deletions,
/// unsubscribing and unmuting with `DELETE`.
pub proof fn lemma_route_methods(r: Route)
    ensures
        (r.method_of() == Method::Get) <==> (
            r is GetFile
            || r is GetFiles
            || r is GetGame
            || r is GetGames
            || r is GetGameStats
            || r is GetGameTags
            || r is GetMod
            || r is GetModComment
            || r is GetModComments
            || r is GetModDependencies
            || r is GetModEvents
            || r is GetModMetadata
            || r is GetModStats
            || r is GetModTags
            || r is GetModTeamMembers
            || r is GetMods
            || r is GetModsEvents
            || r is GetModsStats
            || r is Terms
            || r is UserAuthenticated
            || r is UserEvents
            || r is UserFiles
            || r is UserGames
            || r is UserMods
            || r is UserMuted
            || r is UserRatings
            || r is UserSubscriptions
        ),
        (r.method_of() == Method::Post) <==> (
            r is AddFile
            || r is AddGameMedia
            || r is AddGameTags
            || r is AddMod
            || r is AddModComment
            || r is AddModDependencies
            || r is AddModMedia
            || r is AddModMetadata
            || r is AddModTags
            || r is ExternalAuthDiscord
            || r is ExternalAuthEpic
            || r is ExternalAuthGoogle
            || r is ExternalAuthMeta
            || r is ExternalAuthOpenID
            || r is ExternalAuthPSN
            || r is ExternalAuthSteam
            || r is ExternalAuthSwitch
            || r is ExternalAuthXbox
            || r is ManagePlatformStatus
            || r is MuteUser
            || r is OAuthEmailRequest
            || r is OAuthEmailExchange
            || r is OAuthLogout
            || r is RateMod
            || r is SubmitReport
            || r is SubscribeToMod
            || r is UpdateModCommentKarma
        ),
        (r.method_of() == Method::Put) <==> (
            r is EditFile
            || r is EditMod
            || r is EditModComment
            || r is RenameGameTags
            || r is ReorderModMedia
        ),
        (r.method_of() == Method::Delete) <==> (
            r is DeleteFile
            || r is DeleteGameTags
            || r is DeleteMod
            || r is DeleteModComment
            || r is DeleteModDependencies
            || r is DeleteModMedia
            || r is DeleteModMetadata
            || r is DeleteModTags
            || r is UnmuteUser
            || r is UnsubscribeFromMod
        ),
{
}

/// The routes that need no access token are exactly the public ones: the
/// external authentication calls, the two email login steps, the terms and
/// the public reads of games, mods, files and their details.
pub proof fn lemma_public_routes(r: Route)
    ensures
        r.is_public() <==> (
            r is ExternalAuthDiscord
            || r is ExternalAuthEpic
            || r is ExternalAuthGoogle
            || r is ExternalAuthMeta
            || r is ExternalAuthOpenID
            || r is ExternalAuthPSN
            || r is ExternalAuthSteam
            || r is ExternalAuthSwitch
            || r is ExternalAuthXbox
            || r is GetFile
            || r is GetFiles
            || r is GetGame
            || r is GetGames
            || r is GetGameStats
            || r is GetGameTags
            || r is GetMod
            || r is GetModComment
            || r is GetModComments
            || r is GetModDependencies
            || r is GetModEvents
            || r is GetModMetadata
            || r is GetModStats
            || r is GetModTags
            || r is GetModTeamMembers
            || r is GetMods
            || r is GetModsEvents
            || r is GetModsStats
            || r is OAuthEmailRequest
            || r is OAuthEmailExchange
            || r is Terms
        ),
{
}

/// The path of every route: its fixed text with the decimal form of each ID
/// in its place, and a flag's query after it when the flag is set.
#[verifier::spinoff_prover]
#[verifier::rlimit(100)]
pub proof fn lemma_route_paths(r: Route)
    ensures
        match r {
            Route::AddFile { game_id, mod_id, .. } => r.path_text() == "/games/"@ + decimal(game_id@ as nat) + "/mods/"@ + decimal(mod_id@ as nat) + "/files"@,
            Route::AddGameMedia { game_id, .. } => r.path_text() == "/games/"@ + decimal(game_id@ as nat) + "/media"@,
            Route::AddGameTags { game_id, .. } => r.path_text() == "/games/"@ + decimal(game_id@ as nat) + "/tags"@,
            Route::AddMod { game_id, .. } => r.path_text() == "/games/"@ + decimal(game_id@ as nat) + "/mods"@,
            Route::AddModComment { game_id, mod_id, .. } => r.path_text() == "/games/"@ + decimal(game_id@ as nat) + "/mods/"@ + decimal(mod_id@ as nat) + "/comments"@,
            Route::AddModDependencies { game_id, mod_id, .. } => r.path_text() == "/games/"@ + decimal(game_id@ as nat) + "/mods/"@ + decimal(mod_id@ as nat) + "/dependencies"@,
            Route::AddModMedia { game_id, mod_id, .. } => r.path_text() == "/games/"@ + decimal(game_id@ as nat) + "/mods/"@ + decimal(mod_id@ as nat) + "/media"@,
            Route::AddModMetadata { game_id, mod_id, .. } => r.path_text() == "/games/"@ + decimal(game_id@ as nat) + "/mods/"@ + decimal(mod_id@ as nat) + "/metadatakvp"@,
            Route::AddModTags { game_id, mod_id, .. } => r.path_text() == "/games/"@ + decimal(game_id@ as nat) + "/mods/"@ + decimal(mod_id@ as nat) + "/tags"@,
            Route::DeleteFile { game_id, mod_id, file_id, .. } => r.path_text() == "/games/"@ + decimal(game_id@ as nat) + "/mods/"@ + decimal(mod_id@ as nat) + "/files/"@ + decimal(file_id@ as nat),
            Route::DeleteGameTags { game_id, .. } => r.path_text() == "/games/"@ + decimal(game_id@ as nat) + "/tags"@,
            Route::DeleteMod { game_id, mod_id, .. } => r.path_text() == "/games/"@ + decimal(game_id@ as nat) + "/mods/"@ + decimal(mod_id@ as nat),
            Route::DeleteModComment { game_id, mod_id, comment_id, .. } => r.path_text() == "/games/"@ + decimal(game_id@ as nat) + "/mods/"@ + decimal(mod_id@ as nat) + "/comments/"@ + decimal(comment_id@ as nat),
            Route::DeleteModDependencies { game_id, mod_id, .. } => r.path_text() == "/games/"@ + decimal(game_id@ as nat) + "/mods/"@ + decimal(mod_id@ as nat) + "/dependencies"@,
            Route::DeleteModMedia { game_id, mod_id, .. } => r.path_text() == "/games/"@ + decimal(game_id@ as nat) + "/mods/"@ + decimal(mod_id@ as nat) + "/media"@,
            Route::DeleteModMetadata { game_id, mod_id, .. } => r.path_text() == "/games/"@ + decimal(game_id@ as nat) + "/mods/"@ + decimal(mod_id@ as nat) + "/metadatakvp"@,
            Route::DeleteModTags { game_id, mod_id, .. } => r.path_text() == "/games/"@ + decimal(game_id@ as nat) + "/mods/"@ + decimal(mod_id@ as nat) + "/tags"@,
            Route::EditFile { game_id, mod_id, file_id, .. } => r.path_text() == "/games/"@ + decimal(game_id@ as nat) + "/mods/"@ + decimal(mod_id@ as nat) + "/files/"@ + decimal(file_id@ as nat),
            Route::EditMod { game_id, mod_id, .. } => r.path_text() == "/games/"@ + decimal(game_id@ as nat) + "/mods/"@ + decimal(mod_id@ as nat),
            Route::EditModComment { game_id, mod_id, comment_id, .. } => r.path_text() == "/games/"@ + decimal(game_id@ as nat) + "/mods/"@ + decimal(mod_id@ as nat) + "/comments/"@ + decimal(comment_id@ as nat),
            Route::ExternalAuthDiscord => r.path_text() == "/external/discordauth"@,
            Route::ExternalAuthEpic => r.path_text() == "/external/epicgamesauth"@,
            Route::ExternalAuthGoogle => r.path_text() == "/external/googleauth"@,
            Route::ExternalAuthMeta => r.path_text() == "/external/oculusauth"@,
            Route::ExternalAuthOpenID => r.path_text() == "/external/openidauth"@,
            Route::ExternalAuthPSN => r.path_text() == "/external/psnauth"@,
            Route::ExternalAuthSteam => r.path_text() == "/external/steamauth"@,
            Route::ExternalAuthSwitch => r.path_text() == "/external/switchauth"@,
            Route::ExternalAuthXbox => r.path_text() == "/external/xboxauth"@,
            Route::GetFile { game_id, mod_id, file_id, .. } => r.path_text() == "/games/"@ + decimal(game_id@ as nat) + "/mods/"@ + decimal(mod_id@ as nat) + "/files/"@ + decimal(file_id@ as nat),
            Route::GetFiles { game_id, mod_id, .. } => r.path_text() == "/games/"@ + decimal(game_id@ as nat) + "/mods/"@ + decimal(mod_id@ as nat) + "/files"@,
            Route::GetGame { id, show_hidden_tags, .. } => r.path_text() == "/games/"@ + decimal(id@ as nat) + (match show_hidden_tags { Some(b) => "?show_hidden_tags="@ + (if b { "true"@ } else { "false"@ }), None => Seq::empty() }),
            Route::GetGames { show_hidden_tags, .. } => r.path_text() == "/games"@ + (match show_hidden_tags { Some(b) => "?show_hidden_tags="@ + (if b { "true"@ } else { "false"@ }), None => Seq::empty() }),
            Route::GetGameStats { game_id, .. } => r.path_text() == "/games/"@ + decimal(game_id@ as nat) + "/stats"@,
            Route::GetGameTags { game_id, show_hidden_tags, .. } => r.path_text() == "/games/"@ + decimal(game_id@ as nat) + "/tags"@ + (match show_hidden_tags { Some(b) => "?show_hidden_tags="@ + (if b { "true"@ } else { "false"@ }), None => Seq::empty() }),
            Route::GetMod { game_id, mod_id, .. } => r.path_text() == "/games/"@ + decimal(game_id@ as nat) + "/mods/"@ + decimal(mod_id@ as nat),
            Route::GetModComment { game_id, mod_id, comment_id, .. } => r.path_text() == "/games/"@ + decimal(game_id@ as nat) + "/mods/"@ + decimal(mod_id@ as nat) + "/comments/"@ + decimal(comment_id@ as nat),
            Route::GetModComments { game_id, mod_id, .. } => r.path_text() == "/games/"@ + decimal(game_id@ as nat) + "/mods/"@ + decimal(mod_id@ as nat) + "/comments"@,
            Route::GetModDependencies { game_id, mod_id, recursive, .. } => r.path_text() == "/games/"@ + decimal(game_id@ as nat) + "/mods/"@ + decimal(mod_id@ as nat) + "/dependencies"@ + (match recursive { Some(b) => "?recursive="@ + (if b { "true"@ } else { "false"@ }), None => Seq::empty() }),
            Route::GetModEvents { game_id, mod_id, .. } => r.path_text() == "/games/"@ + decimal(game_id@ as nat) + "/mods/"@ + decimal(mod_id@ as nat) + "/events"@,
            Route::GetModMetadata { game_id, mod_id, .. } => r.path_text() == "/games/"@ + decimal(game_id@ as nat) + "/mods/"@ + decimal(mod_id@ as nat) + "/metadatakvp"@,
            Route::GetModStats { game_id, mod_id, .. } => r.path_text() == "/games/"@ + decimal(game_id@ as nat) + "/mods/"@ + decimal(mod_id@ as nat) + "/stats"@,
            Route::GetModTags { game_id, mod_id, .. } => r.path_text() == "/games/"@ + decimal(game_id@ as nat) + "/mods/"@ + decimal(mod_id@ as nat) + "/tags"@,
            Route::GetModTeamMembers { game_id, mod_id, .. } => r.path_text() == "/games/"@ + decimal(game_id@ as nat) + "/mods/"@ + decimal(mod_id@ as nat) + "/team"@,
            Route::GetMods { game_id, .. } => r.path_text() == "/games/"@ + decimal(game_id@ as nat) + "/mods"@,
            Route::GetModsEvents { game_id, .. } => r.path_text() == "/games/"@ + decimal(game_id@ as nat) + "/mods/events"@,
            Route::GetModsStats { game_id, .. } => r.path_text() == "/games/"@ + decimal(game_id@ as nat) + "/mods/stats"@,
            Route::ManagePlatformStatus { game_id, mod_id, file_id, .. } => r.path_text() == "/games/"@ + decimal(game_id@ as nat) + "/mods/"@ + decimal(mod_id@ as nat) + "/files/"@ + decimal(file_id@ as nat) + "/platforms"@,
            Route::MuteUser { user_id, .. } => r.path_text() == "/users/"@ + decimal(user_id@ as nat) + "/mute"@,
            Route::OAuthEmailRequest => r.path_text() == "/oauth/emailrequest"@,
            Route::OAuthEmailExchange => r.path_text() == "/oauth/emailexchange"@,
            Route::OAuthLogout => r.path_text() == "/oauth/logout"@,
            Route::RateMod { game_id, mod_id, .. } => r.path_text() == "/games/"@ + decimal(game_id@ as nat) + "/mods/"@ + decimal(mod_id@ as nat) + "/ratings"@,
            Route::RenameGameTags { game_id, .. } => r.path_text() == "/games/"@ + decimal(game_id@ as nat) + "/tags/rename"@,
            Route::ReorderModMedia { game_id, mod_id, .. } => r.path_text() == "/games/"@ + decimal(game_id@ as nat) + "/mods/"@ + decimal(mod_id@ as nat) + "/media/reorder"@,
            Route::SubmitReport => r.path_text() == "/report"@,
            Route::SubscribeToMod { game_id, mod_id, .. } => r.path_text() == "/games/"@ + decimal(game_id@ as nat) + "/mods/"@ + decimal(mod_id@ as nat) + "/subscribe"@,
            Route::Terms => r.path_text() == "/authenticate/terms"@,
            Route::UnmuteUser { user_id, .. } => r.path_text() == "/users/"@ + decimal(user_id@ as nat) + "/mute"@,
            Route::UnsubscribeFromMod { game_id, mod_id, .. } => r.path_text() == "/games/"@ + decimal(game_id@ as nat) + "/mods/"@ + decimal(mod_id@ as nat) + "/subscribe"@,
            Route::UpdateModCommentKarma { game_id, mod_id, comment_id, .. } => r.path_text() == "/games/"@ + decimal(game_id@ as nat) + "/mods/"@ + decimal(mod_id@ as nat) + "/comments/"@ + decimal(comment_id@ as nat) + "/karma"@,
            Route::UserAuthenticated => r.path_text() == "/me"@,
            Route::UserEvents => r.path_text() == "/me/events"@,
            Route::UserFiles => r.path_text() == "/me/files"@,
            Route::UserGames => r.path_text() == "/me/games"@,
            Route::UserMods => r.path_text() == "/me/mods"@,
            Route::UserMuted => r.path_text() == "/me/users/muted"@,
            Route::UserRatings => r.path_text() == "/me/ratings"@,
            Route::UserSubscriptions => r.path_text() == "/me/subscribed"@,
        },
{
    reveal_strlit("");
    reveal_strlit("true");
    reveal_strlit("false");
    match r {
        Route::DeleteFile { game_id, mod_id, file_id, .. } => {
            assert("/games/"@ + decimal(game_id@ as nat) + "/mods/"@ + decimal(mod_id@ as nat) + "/files/"@ + decimal(file_id@ as nat) + ""@ =~= "/games/"@ + decimal(game_id@ as nat) + "/mods/"@ + decimal(mod_id@ as nat) + "/files/"@ + decimal(file_id@ as nat));
        },
        Route::DeleteMod { game_id, mod_id, .. } => {
            assert("/games/"@ + decimal(game_id@ as nat) + "/mods/"@ + decimal(mod_id@ as nat) + ""@ =~= "/games/"@ + decimal(game_id@ as nat) + "/mods/"@ + decimal(mod_id@ as nat));
        },
        Route::DeleteModComment { game_id, mod_id, comment_id, .. } => {
            assert("/games/"@ + decimal(game_id@ as nat) + "/mods/"@ + decimal(mod_id@ as nat) + "/comments/"@ + decimal(comment_id@ as nat) + ""@ =~= "/games/"@ + decimal(game_id@ as nat) + "/mods/"@ + decimal(mod_id@ as nat) + "/comments/"@ + decimal(comment_id@ as nat));
        },
        Route::EditFile { game_id, mod_id, file_id, .. } => {
            assert("/games/"@ + decimal(game_id@ as nat) + "/mods/"@ + decimal(mod_id@ as nat) + "/files/"@ + decimal(file_id@ as nat) + ""@ =~= "/games/"@ + decimal(game_id@ as nat) + "/mods/"@ + decimal(mod_id@ as nat) + "/files/"@ + decimal(file_id@ as nat));
        },
        Route::EditMod { game_id, mod_id, .. } => {
            assert("/games/"@ + decimal(game_id@ as nat) + "/mods/"@ + decimal(mod_id@ as nat) + ""@ =~= "/games/"@ + decimal(game_id@ as nat) + "/mods/"@ + decimal(mod_id@ as nat));
        },
        Route::EditModComment { game_id, mod_id, comment_id, .. } => {
            assert("/games/"@ + decimal(game_id@ as nat) + "/mods/"@ + decimal(mod_id@ as nat) + "/comments/"@ + decimal(comment_id@ as nat) + ""@ =~= "/games/"@ + decimal(game_id@ as nat) + "/mods/"@ + decimal(mod_id@ as nat) + "/comments/"@ + decimal(comment_id@ as nat));
        },
        Route::GetFile { game_id, mod_id, file_id, .. } => {
            assert("/games/"@ + decimal(game_id@ as nat) + "/mods/"@ + decimal(mod_id@ as nat) + "/files/"@ + decimal(file_id@ as nat) + ""@ =~= "/games/"@ + decimal(game_id@ as nat) + "/mods/"@ + decimal(mod_id@ as nat) + "/files/"@ + decimal(file_id@ as nat));
        },
        Route::GetGame { id, show_hidden_tags, .. } => {
            assert("/games/"@ + decimal(id@ as nat) + ""@ =~= "/games/"@ + decimal(id@ as nat));
        },
        Route::GetGames { show_hidden_tags, .. } => {
            
        },
        Route::GetGameTags { game_id, show_hidden_tags, .. } => {
            
        },
        Route::GetMod { game_id, mod_id, .. } => {
            assert("/games/"@ + decimal(game_id@ as nat) + "/mods/"@ + decimal(mod_id@ as nat) + ""@ =~= "/games/"@ + decimal(game_id@ as nat) + "/mods/"@ + decimal(mod_id@ as nat));
        },
        Route::GetModComment { game_id, mod_id, comment_id, .. } => {
            assert("/games/"@ + decimal(game_id@ as nat) + "/mods/"@ + decimal(mod_id@ as nat) + "/comments/"@ + decimal(comment_id@ as nat) + ""@ =~= "/games/"@ + decimal(game_id@ as nat) + "/mods/"@ + decimal(mod_id@ as nat) + "/comments/"@ + decimal(comment_id@ as nat));
        },
        Route::GetModDependencies { game_id, mod_id, recursive, .. } => {
            
        },
        _ => {},
    }
}

} // verus!
