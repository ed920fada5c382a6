use modio::routing::Route;
use modio::types::id::{CommentId, FileId, GameId, ModId, UserId};

fn game_id() -> GameId {
    GameId::new(1)
}

fn mod_id() -> ModId {
    ModId::new(2)
}

fn file_id() -> FileId {
    FileId::new(3)
}

fn comment_id() -> CommentId {
    CommentId::new(4)
}

fn user_id() -> UserId {
    UserId::new(5)
}

#[test]
fn routing_add_file() {
    let route = Route::AddFile {
        game_id: game_id(),
        mod_id: mod_id(),
    };

    assert_eq!(route.to_string(), "/games/1/mods/2/files");
}

#[test]
fn routing_add_game_media() {
    let route = Route::AddGameMedia { game_id: game_id() };

    assert_eq!(route.to_string(), "/games/1/media");
}

#[test]
fn routing_add_game_tags() {
    let route = Route::AddGameTags { game_id: game_id() };

    assert_eq!(route.to_string(), "/games/1/tags");
}

#[test]
fn routing_add_mod() {
    let route = Route::AddMod { game_id: game_id() };

    assert_eq!(route.to_string(), "/games/1/mods");
}

#[test]
fn routing_add_mod_comment() {
    let route = Route::AddModComment {
        game_id: game_id(),
        mod_id: mod_id(),
    };

    assert_eq!(route.to_string(), "/games/1/mods/2/comments");
}

#[test]
fn add_mod_comment_karma() {
    let route = Route::AddModCommentKarma {
        game_id: game_id(),
        mod_id: mod_id(),
        comment_id: comment_id(),
    };

    assert_eq!(route.to_string(), "/games/1/mods/2/comments/4/karma");
}

#[test]
fn routing_add_mod_dependencies() {
    let route = Route::AddModDependencies {
        game_id: game_id(),
        mod_id: mod_id(),
    };

    assert_eq!(route.to_string(), "/games/1/mods/2/dependencies");
}

#[test]
fn routing_add_mod_media() {
    let route = Route::AddModMedia {
        game_id: game_id(),
        mod_id: mod_id(),
    };

    assert_eq!(route.to_string(), "/games/1/mods/2/media");
}

#[test]
fn routing_add_mod_metadata() {
    let route = Route::AddModMetadata {
        game_id: game_id(),
        mod_id: mod_id(),
    };

    assert_eq!(route.to_string(), "/games/1/mods/2/metadatakvp");
}

#[test]
fn routing_add_mod_tags() {
    let route = Route::AddModTags {
        game_id: game_id(),
        mod_id: mod_id(),
    };

    assert_eq!(route.to_string(), "/games/1/mods/2/tags");
}

#[test]
fn routing_delete_file() {
    let route = Route::DeleteFile {
        game_id: game_id(),
        mod_id: mod_id(),
        file_id: file_id(),
    };

    assert_eq!(route.to_string(), "/games/1/mods/2/files/3");
}

#[test]
fn routing_delete_game_tags() {
    let route = Route::DeleteGameTags { game_id: game_id() };

    assert_eq!(route.to_string(), "/games/1/tags");
}

#[test]
fn routing_delete_mod() {
    let route = Route::DeleteMod {
        game_id: game_id(),
        mod_id: mod_id(),
    };

    assert_eq!(route.to_string(), "/games/1/mods/2");
}

#[test]
fn routing_delete_mod_comment() {
    let route = Route::DeleteModComment {
        game_id: game_id(),
        mod_id: mod_id(),
        comment_id: comment_id(),
    };

    assert_eq!(route.to_string(), "/games/1/mods/2/comments/4");
}

#[test]
fn routing_delete_mod_dependencies() {
    let route = Route::DeleteModDependencies {
        game_id: game_id(),
        mod_id: mod_id(),
    };

    assert_eq!(route.to_string(), "/games/1/mods/2/dependencies");
}

#[test]
fn routing_delete_mod_media() {
    let route = Route::DeleteModMedia {
        game_id: game_id(),
        mod_id: mod_id(),
    };

    assert_eq!(route.to_string(), "/games/1/mods/2/media");
}

#[test]
fn routing_delete_mod_metadata() {
    let route = Route::DeleteModMetadata {
        game_id: game_id(),
        mod_id: mod_id(),
    };

    assert_eq!(route.to_string(), "/games/1/mods/2/metadatakvp");
}

#[test]
fn routing_delete_mod_tags() {
    let route = Route::DeleteModTags {
        game_id: game_id(),
        mod_id: mod_id(),
    };

    assert_eq!(route.to_string(), "/games/1/mods/2/tags");
}

#[test]
fn routing_edit_file() {
    let route = Route::EditFile {
        game_id: game_id(),
        mod_id: mod_id(),
        file_id: file_id(),
    };

    assert_eq!(route.to_string(), "/games/1/mods/2/files/3");
}

#[test]
fn routing_edit_mod() {
    let route = Route::EditMod {
        game_id: game_id(),
        mod_id: mod_id(),
    };

    assert_eq!(route.to_string(), "/games/1/mods/2");
}

#[test]
fn routing_edit_mod_comment() {
    let route = Route::EditModComment {
        game_id: game_id(),
        mod_id: mod_id(),
        comment_id: comment_id(),
    };

    assert_eq!(route.to_string(), "/games/1/mods/2/comments/4");
}

#[test]
fn routing_external_auth_discord() {
    let route = Route::ExternalAuthDiscord;

    assert_eq!(route.to_string(), "/external/discordauth");
}

#[test]
fn routing_external_auth_epic() {
    let route = Route::ExternalAuthEpic;

    assert_eq!(route.to_string(), "/external/epicgamesauth");
}

#[test]
fn routing_external_auth_google() {
    let route = Route::ExternalAuthGoogle;

    assert_eq!(route.to_string(), "/external/googleauth");
}

#[test]
fn routing_external_auth_meta() {
    let route = Route::ExternalAuthMeta;

    assert_eq!(route.to_string(), "/external/oculusauth");
}

#[test]
fn routing_external_auth_openid() {
    let route = Route::ExternalAuthOpenID;

    assert_eq!(route.to_string(), "/external/openidauth");
}

#[test]
fn routing_external_auth_psn() {
    let route = Route::ExternalAuthPSN;

    assert_eq!(route.to_string(), "/external/psnauth");
}

#[test]
fn routing_external_auth_steam() {
    let route = Route::ExternalAuthSteam;

    assert_eq!(route.to_string(), "/external/steamauth");
}

#[test]
fn routing_external_auth_switch() {
    let route = Route::ExternalAuthSwitch;

    assert_eq!(route.to_string(), "/external/switchauth");
}

#[test]
fn routing_external_auth_xbox() {
    let route = Route::ExternalAuthXbox;

    assert_eq!(route.to_string(), "/external/xboxauth");
}

#[test]
fn routing_get_file() {
    let route = Route::GetFile {
        game_id: game_id(),
        mod_id: mod_id(),
        file_id: file_id(),
    };

    assert_eq!(route.to_string(), "/games/1/mods/2/files/3");
}

#[test]
fn routing_get_files() {
    let route = Route::GetFiles {
        game_id: game_id(),
        mod_id: mod_id(),
    };

    assert_eq!(route.to_string(), "/games/1/mods/2/files");
}

#[test]
fn routing_get_game() {
    let route = Route::GetGame {
        id: game_id(),
        show_hidden_tags: None,
    };

    assert_eq!(route.to_string(), "/games/1");

    let route = Route::GetGame {
        id: game_id(),
        show_hidden_tags: Some(true),
    };

    assert_eq!(route.to_string(), "/games/1?show_hidden_tags=true");
}

#[test]
fn routing_get_games() {
    let route = Route::GetGames {
        show_hidden_tags: None,
    };

    assert_eq!(route.to_string(), "/games");

    let route = Route::GetGames {
        show_hidden_tags: Some(true),
    };

    assert_eq!(route.to_string(), "/games?show_hidden_tags=true");
}

#[test]
fn routing_get_game_stats() {
    let route = Route::GetGameStats { game_id: game_id() };

    assert_eq!(route.to_string(), "/games/1/stats");
}

#[test]
fn routing_get_game_tags() {
    let route = Route::GetGameTags { game_id: game_id() };

    assert_eq!(route.to_string(), "/games/1/tags");
}

#[test]
fn routing_get_mod() {
    let route = Route::GetMod {
        game_id: game_id(),
        mod_id: mod_id(),
    };

    assert_eq!(route.to_string(), "/games/1/mods/2");
}

#[test]
fn routing_get_mod_comment() {
    let route = Route::GetModComment {
        game_id: game_id(),
        mod_id: mod_id(),
        comment_id: comment_id(),
    };

    assert_eq!(route.to_string(), "/games/1/mods/2/comments/4");
}

#[test]
fn routing_get_mod_comments() {
    let route = Route::GetModComments {
        game_id: game_id(),
        mod_id: mod_id(),
    };

    assert_eq!(route.to_string(), "/games/1/mods/2/comments");
}

#[test]
fn routing_get_mod_dependencies() {
    let route = Route::GetModDependencies {
        game_id: game_id(),
        mod_id: mod_id(),
    };

    assert_eq!(route.to_string(), "/games/1/mods/2/dependencies");
}

#[test]
fn routing_get_mod_events() {
    let route = Route::GetModEvents {
        game_id: game_id(),
        mod_id: mod_id(),
    };

    assert_eq!(route.to_string(), "/games/1/mods/2/events");
}

#[test]
fn routing_get_mod_metadata() {
    let route = Route::GetModMetadata {
        game_id: game_id(),
        mod_id: mod_id(),
    };

    assert_eq!(route.to_string(), "/games/1/mods/2/metadatakvp");
}

#[test]
fn routing_get_mod_stats() {
    let route = Route::GetModStats {
        game_id: game_id(),
        mod_id: mod_id(),
    };

    assert_eq!(route.to_string(), "/games/1/mods/2/stats");
}

#[test]
fn routing_get_mod_tags() {
    let route = Route::GetModTags {
        game_id: game_id(),
        mod_id: mod_id(),
    };

    assert_eq!(route.to_string(), "/games/1/mods/2/tags");
}

#[test]
fn routing_get_mod_team_members() {
    let route = Route::GetModTeamMembers {
        game_id: game_id(),
        mod_id: mod_id(),
    };

    assert_eq!(route.to_string(), "/games/1/mods/2/team");
}

#[test]
fn routing_get_mods() {
    let route = Route::GetMods { game_id: game_id() };

    assert_eq!(route.to_string(), "/games/1/mods");
}

#[test]
fn routing_get_mods_events() {
    let route = Route::GetModsEvents { game_id: game_id() };

    assert_eq!(route.to_string(), "/games/1/mods/events");
}

#[test]
fn routing_get_mods_stats() {
    let route = Route::GetModsStats { game_id: game_id() };

    assert_eq!(route.to_string(), "/games/1/mods/stats");
}

#[test]
fn routing_manage_platform_status() {
    let route = Route::ManagePlatformStatus {
        game_id: game_id(),
        mod_id: mod_id(),
        file_id: file_id(),
    };

    assert_eq!(route.to_string(), "/games/1/mods/2/files/3/platforms");
}

#[test]
fn routing_mute_user() {
    let route = Route::MuteUser { user_id: user_id() };

    assert_eq!(route.to_string(), "/users/5/mute");
}

#[test]
fn routing_oauth_email_request() {
    let route = Route::OAuthEmailRequest;

    assert_eq!(route.to_string(), "/oauth/emailrequest");
}

#[test]
fn routing_oauth_email_exchange() {
    let route = Route::OAuthEmailExchange;

    assert_eq!(route.to_string(), "/oauth/emailexchange");
}

#[test]
fn routing_oauth_logout() {
    let route = Route::OAuthLogout;

    assert_eq!(route.to_string(), "/oauth/logout");
}

#[test]
fn routing_rate_mod() {
    let route = Route::RateMod {
        game_id: game_id(),
        mod_id: mod_id(),
    };

    assert_eq!(route.to_string(), "/games/1/mods/2/ratings");
}

#[test]
fn routing_rename_game_tags() {
    let route = Route::RenameGameTags { game_id: game_id() };

    assert_eq!(route.to_string(), "/games/1/tags/rename");
}

#[test]
fn routing_reorder_mod_media() {
    let route = Route::ReorderModMedia {
        game_id: game_id(),
        mod_id: mod_id(),
    };

    assert_eq!(route.to_string(), "/games/1/mods/2/media/reorder");
}

#[test]
fn routing_submit_report() {
    let route = Route::SubmitReport;

    assert_eq!(route.to_string(), "/report");
}

#[test]
fn routing_subscribe_to_mod() {
    let route = Route::SubscribeToMod {
        game_id: game_id(),
        mod_id: mod_id(),
    };

    assert_eq!(route.to_string(), "/games/1/mods/2/subscribe");
}

#[test]
fn routing_terms() {
    let route = Route::Terms;

    assert_eq!(route.to_string(), "/authenticate/terms");
}

#[test]
fn routing_unmute_user() {
    let route = Route::UnmuteUser { user_id: user_id() };

    assert_eq!(route.to_string(), "/users/5/mute");
}

#[test]
fn routing_unsubscribe_from_mod() {
    let route = Route::UnsubscribeFromMod {
        game_id: game_id(),
        mod_id: mod_id(),
    };

    assert_eq!(route.to_string(), "/games/1/mods/2/subscribe");
}

#[test]
fn routing_user_authenticated() {
    let route = Route::UserAuthenticated;

    assert_eq!(route.to_string(), "/me");
}

#[test]
fn routing_user_events() {
    let route = Route::UserEvents;

    assert_eq!(route.to_string(), "/me/events");
}

#[test]
fn routing_user_files() {
    let route = Route::UserFiles;

    assert_eq!(route.to_string(), "/me/files");
}

#[test]
fn routing_user_games() {
    let route = Route::UserGames;

    assert_eq!(route.to_string(), "/me/games");
}

#[test]
fn routing_user_mods() {
    let route = Route::UserMods;

    assert_eq!(route.to_string(), "/me/mods");
}

#[test]
fn routing_user_muted() {
    let route = Route::UserMuted;

    assert_eq!(route.to_string(), "/me/users/muted");
}

#[test]
fn routing_user_ratings() {
    let route = Route::UserRatings;

    assert_eq!(route.to_string(), "/me/ratings");
}

#[test]
fn routing_user_subscriptions() {
    let route = Route::UserSubscriptions;

    assert_eq!(route.to_string(), "/me/subscribed");
}
