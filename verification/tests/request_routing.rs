use modio::method::Method;
use modio::request::routing::{Path, Route};
use modio::types::id::{CommentId, FileId, GameId, ModId, UserId};

fn game_id() -> GameId {
    GameId::new(1)
}

fn mod_id() -> ModId {
    ModId::new(2)
}

fn file_id() -> FileId {
    FileId::new(3)
}

fn comment_id() -> CommentId {
    CommentId::new(4)
}

fn user_id() -> UserId {
    UserId::new(5)
}

#[test]
fn add_file() {
    let route = Route::AddFile {
        game_id: game_id(),
        mod_id: mod_id(),
    };

    assert_eq!(Path(route).to_string(), "/games/1/mods/2/files");
}

#[test]
fn add_game_media() {
    let route = Route::AddGameMedia { game_id: game_id() };

    assert_eq!(Path(route).to_string(), "/games/1/media");
}

#[test]
fn add_game_tags() {
    let route = Route::AddGameTags { game_id: game_id() };

    assert_eq!(Path(route).to_string(), "/games/1/tags");
}

#[test]
fn add_mod() {
    let route = Route::AddMod { game_id: game_id() };

    assert_eq!(Path(route).to_string(), "/games/1/mods");
}

#[test]
fn add_mod_comment() {
    let route = Route::AddModComment {
        game_id: game_id(),
        mod_id: mod_id(),
    };

    assert_eq!(Path(route).to_string(), "/games/1/mods/2/comments");
}

#[test]
fn add_mod_dependencies() {
    let route = Route::AddModDependencies {
        game_id: game_id(),
        mod_id: mod_id(),
    };

    assert_eq!(Path(route).to_string(), "/games/1/mods/2/dependencies");
}

#[test]
fn add_mod_media() {
    let route = Route::AddModMedia {
        game_id: game_id(),
        mod_id: mod_id(),
    };

    assert_eq!(Path(route).to_string(), "/games/1/mods/2/media");
}

#[test]
fn add_mod_metadata() {
    let route = Route::AddModMetadata {
        game_id: game_id(),
        mod_id: mod_id(),
    };

    assert_eq!(Path(route).to_string(), "/games/1/mods/2/metadatakvp");
}

#[test]
fn add_mod_tags() {
    let route = Route::AddModTags {
        game_id: game_id(),
        mod_id: mod_id(),
    };

    assert_eq!(Path(route).to_string(), "/games/1/mods/2/tags");
}

#[test]
fn delete_file() {
    let route = Route::DeleteFile {
        game_id: game_id(),
        mod_id: mod_id(),
        file_id: file_id(),
    };

    assert_eq!(Path(route).to_string(), "/games/1/mods/2/files/3");
}

#[test]
fn delete_game_tags() {
    let route = Route::DeleteGameTags { game_id: game_id() };

    assert_eq!(Path(route).to_string(), "/games/1/tags");
}

#[test]
fn delete_mod() {
    let route = Route::DeleteMod {
        game_id: game_id(),
        mod_id: mod_id(),
    };

    assert_eq!(Path(route).to_string(), "/games/1/mods/2");
}

#[test]
fn delete_mod_comment() {
    let route = Route::DeleteModComment {
        game_id: game_id(),
        mod_id: mod_id(),
        comment_id: comment_id(),
    };

    assert_eq!(Path(route).to_string(), "/games/1/mods/2/comments/4");
}

#[test]
fn delete_mod_dependencies() {
    let route = Route::DeleteModDependencies {
        game_id: game_id(),
        mod_id: mod_id(),
    };

    assert_eq!(Path(route).to_string(), "/games/1/mods/2/dependencies");
}

#[test]
fn delete_mod_media() {
    let route = Route::DeleteModMedia {
        game_id: game_id(),
        mod_id: mod_id(),
    };

    assert_eq!(Path(route).to_string(), "/games/1/mods/2/media");
}

#[test]
fn delete_mod_metadata() {
    let route = Route::DeleteModMetadata {
        game_id: game_id(),
        mod_id: mod_id(),
    };

    assert_eq!(Path(route).to_string(), "/games/1/mods/2/metadatakvp");
}

#[test]
fn delete_mod_tags() {
    let route = Route::DeleteModTags {
        game_id: game_id(),
        mod_id: mod_id(),
    };

    assert_eq!(Path(route).to_string(), "/games/1/mods/2/tags");
}

#[test]
fn edit_file() {
    let route = Route::EditFile {
        game_id: game_id(),
        mod_id: mod_id(),
        file_id: file_id(),
    };

    assert_eq!(Path(route).to_string(), "/games/1/mods/2/files/3");
}

#[test]
fn edit_mod() {
    let route = Route::EditMod {
        game_id: game_id(),
        mod_id: mod_id(),
    };

    assert_eq!(Path(route).to_string(), "/games/1/mods/2");
}

#[test]
fn edit_mod_comment() {
    let route = Route::EditModComment {
        game_id: game_id(),
        mod_id: mod_id(),
        comment_id: comment_id(),
    };

    assert_eq!(Path(route).to_string(), "/games/1/mods/2/comments/4");
}

#[test]
fn external_auth_discord() {
    let route = Route::ExternalAuthDiscord;

    assert_eq!(Path(route).to_string(), "/external/discordauth");
}

#[test]
fn external_auth_epic() {
    let route = Route::ExternalAuthEpic;

    assert_eq!(Path(route).to_string(), "/external/epicgamesauth");
}

#[test]
fn external_auth_google() {
    let route = Route::ExternalAuthGoogle;

    assert_eq!(Path(route).to_string(), "/external/googleauth");
}

#[test]
fn external_auth_meta() {
    let route = Route::ExternalAuthMeta;

    assert_eq!(Path(route).to_string(), "/external/oculusauth");
}

#[test]
fn external_auth_openid() {
    let route = Route::ExternalAuthOpenID;

    assert_eq!(Path(route).to_string(), "/external/openidauth");
}

#[test]
fn external_auth_psn() {
    let route = Route::ExternalAuthPSN;

    assert_eq!(Path(route).to_string(), "/external/psnauth");
}

#[test]
fn external_auth_steam() {
    let route = Route::ExternalAuthSteam;

    assert_eq!(Path(route).to_string(), "/external/steamauth");
}

#[test]
fn external_auth_switch() {
    let route = Route::ExternalAuthSwitch;

    assert_eq!(Path(route).to_string(), "/external/switchauth");
}

#[test]
fn external_auth_xbox() {
    let route = Route::ExternalAuthXbox;

    assert_eq!(Path(route).to_string(), "/external/xboxauth");
}

#[test]
fn get_file() {
    let route = Route::GetFile {
        game_id: game_id(),
        mod_id: mod_id(),
        file_id: file_id(),
    };

    assert_eq!(Path(route).to_string(), "/games/1/mods/2/files/3");
}

#[test]
fn get_files() {
    let route = Route::GetFiles {
        game_id: game_id(),
        mod_id: mod_id(),
    };

    assert_eq!(Path(route).to_string(), "/games/1/mods/2/files");
}

#[test]
fn get_game() {
    let route = Route::GetGame {
        id: game_id(),
        show_hidden_tags: None,
    };

    assert_eq!(Path(route).to_string(), "/games/1");

    let route = Route::GetGame {
        id: game_id(),
        show_hidden_tags: Some(true),
    };

    assert_eq!(Path(route).to_string(), "/games/1?show_hidden_tags=true");
}

#[test]
fn get_games() {
    let route = Route::GetGames {
        show_hidden_tags: None,
    };

    assert_eq!(Path(route).to_string(), "/games");

    let route = Route::GetGames {
        show_hidden_tags: Some(true),
    };

    assert_eq!(Path(route).to_string(), "/games?show_hidden_tags=true");
}

#[test]
fn get_game_stats() {
    let route = Route::GetGameStats { game_id: game_id() };

    assert_eq!(Path(route).to_string(), "/games/1/stats");
}

#[test]
fn get_game_tags() {
    let route = Route::GetGameTags {
        game_id: game_id(),
        show_hidden_tags: None,
    };

    assert_eq!(Path(route).to_string(), "/games/1/tags");

    let route = Route::GetGameTags {
        game_id: game_id(),
        show_hidden_tags: Some(true),
    };

    assert_eq!(
        Path(route).to_string(),
        "/games/1/tags?show_hidden_tags=true"
    );
}

#[test]
fn get_mod() {
    let route = Route::GetMod {
        game_id: game_id(),
        mod_id: mod_id(),
    };

    assert_eq!(Path(route).to_string(), "/games/1/mods/2");
}

#[test]
fn get_mod_comment() {
    let route = Route::GetModComment {
        game_id: game_id(),
        mod_id: mod_id(),
        comment_id: comment_id(),
    };

    assert_eq!(Path(route).to_string(), "/games/1/mods/2/comments/4");
}

#[test]
fn get_mod_comments() {
    let route = Route::GetModComments {
        game_id: game_id(),
        mod_id: mod_id(),
    };

    assert_eq!(Path(route).to_string(), "/games/1/mods/2/comments");
}

#[test]
fn get_mod_dependencies() {
    let route = Route::GetModDependencies {
        game_id: game_id(),
        mod_id: mod_id(),
        recursive: None,
    };

    assert_eq!(Path(route).to_string(), "/games/1/mods/2/dependencies");

    let route = Route::GetModDependencies {
        game_id: game_id(),
        mod_id: mod_id(),
        recursive: Some(true),
    };

    assert_eq!(
        Path(route).to_string(),
        "/games/1/mods/2/dependencies?recursive=true"
    );
}

#[test]
fn get_mod_events() {
    let route = Route::GetModEvents {
        game_id: game_id(),
        mod_id: mod_id(),
    };

    assert_eq!(Path(route).to_string(), "/games/1/mods/2/events");
}

#[test]
fn get_mod_metadata() {
    let route = Route::GetModMetadata {
        game_id: game_id(),
        mod_id: mod_id(),
    };

    assert_eq!(Path(route).to_string(), "/games/1/mods/2/metadatakvp");
}

#[test]
fn get_mod_stats() {
    let route = Route::GetModStats {
        game_id: game_id(),
        mod_id: mod_id(),
    };

    assert_eq!(Path(route).to_string(), "/games/1/mods/2/stats");
}

#[test]
fn get_mod_tags() {
    let route = Route::GetModTags {
        game_id: game_id(),
        mod_id: mod_id(),
    };

    assert_eq!(Path(route).to_string(), "/games/1/mods/2/tags");
}

#[test]
fn get_mod_team_members() {
    let route = Route::GetModTeamMembers {
        game_id: game_id(),
        mod_id: mod_id(),
    };

    assert_eq!(Path(route).to_string(), "/games/1/mods/2/team");
}

#[test]
fn get_mods() {
    let route = Route::GetMods { game_id: game_id() };

    assert_eq!(Path(route).to_string(), "/games/1/mods");
}

#[test]
fn get_mods_events() {
    let route = Route::GetModsEvents { game_id: game_id() };

    assert_eq!(Path(route).to_string(), "/games/1/mods/events");
}

#[test]
fn get_mods_stats() {
    let route = Route::GetModsStats { game_id: game_id() };

    assert_eq!(Path(route).to_string(), "/games/1/mods/stats");
}

#[test]
fn manage_platform_status() {
    let route = Route::ManagePlatformStatus {
        game_id: game_id(),
        mod_id: mod_id(),
        file_id: file_id(),
    };

    assert_eq!(Path(route).to_string(), "/games/1/mods/2/files/3/platforms");
}

#[test]
fn mute_user() {
    let route = Route::MuteUser { user_id: user_id() };

    assert_eq!(Path(route).to_string(), "/users/5/mute");
}

#[test]
fn oauth_email_request() {
    let route = Route::OAuthEmailRequest;

    assert_eq!(Path(route).to_string(), "/oauth/emailrequest");
}

#[test]
fn oauth_email_exchange() {
    let route = Route::OAuthEmailExchange;

    assert_eq!(Path(route).to_string(), "/oauth/emailexchange");
}

#[test]
fn oauth_logout() {
    let route = Route::OAuthLogout;

    assert_eq!(Path(route).to_string(), "/oauth/logout");
}

#[test]
fn rate_mod() {
    let route = Route::RateMod {
        game_id: game_id(),
        mod_id: mod_id(),
    };

    assert_eq!(Path(route).to_string(), "/games/1/mods/2/ratings");
}

#[test]
fn rename_game_tags() {
    let route = Route::RenameGameTags { game_id: game_id() };

    assert_eq!(Path(route).to_string(), "/games/1/tags/rename");
}

#[test]
fn reorder_mod_media() {
    let route = Route::ReorderModMedia {
        game_id: game_id(),
        mod_id: mod_id(),
    };

    assert_eq!(Path(route).to_string(), "/games/1/mods/2/media/reorder");
}

#[test]
fn submit_report() {
    let route = Route::SubmitReport;

    assert_eq!(Path(route).to_string(), "/report");
}

#[test]
fn subscribe_to_mod() {
    let route = Route::SubscribeToMod {
        game_id: game_id(),
        mod_id: mod_id(),
    };

    assert_eq!(Path(route).to_string(), "/games/1/mods/2/subscribe");
}

#[test]
fn update_mod_comment_karma() {
    let route = Route::UpdateModCommentKarma {
        game_id: game_id(),
        mod_id: mod_id(),
        comment_id: comment_id(),
    };

    assert_eq!(Path(route).to_string(), "/games/1/mods/2/comments/4/karma");
}

#[test]
fn terms() {
    let route = Route::Terms;

    assert_eq!(Path(route).to_string(), "/authenticate/terms");
}

#[test]
fn unmute_user() {
    let route = Route::UnmuteUser { user_id: user_id() };

    assert_eq!(Path(route).to_string(), "/users/5/mute");
}

#[test]
fn unsubscribe_from_mod() {
    let route = Route::UnsubscribeFromMod {
        game_id: game_id(),
        mod_id: mod_id(),
    };

    assert_eq!(Path(route).to_string(), "/games/1/mods/2/subscribe");
}

#[test]
fn user_authenticated() {
    let route = Route::UserAuthenticated;

    assert_eq!(Path(route).to_string(), "/me");
}

#[test]
fn user_events() {
    let route = Route::UserEvents;

    assert_eq!(Path(route).to_string(), "/me/events");
}

#[test]
fn user_files() {
    let route = Route::UserFiles;

    assert_eq!(Path(route).to_string(), "/me/files");
}

#[test]
fn user_games() {
    let route = Route::UserGames;

    assert_eq!(Path(route).to_string(), "/me/games");
}

#[test]
fn user_mods() {
    let route = Route::UserMods;

    assert_eq!(Path(route).to_string(), "/me/mods");
}

#[test]
fn user_muted() {
    let route = Route::UserMuted;

    assert_eq!(Path(route).to_string(), "/me/users/muted");
}

#[test]
fn user_ratings() {
    let route = Route::UserRatings;

    assert_eq!(Path(route).to_string(), "/me/ratings");
}

#[test]
fn user_subscriptions() {
    let route = Route::UserSubscriptions;

    assert_eq!(Path(route).to_string(), "/me/subscribed");
}

#[test]
fn path_converts_to_uri() {
    let route = Route::GetModDependencies {
        game_id: game_id(),
        mod_id: mod_id(),
        recursive: Some(true),
    };
    let uri = http::Uri::try_from(Path(route)).unwrap();
    assert_eq!(uri.path(), "/games/1/mods/2/dependencies");
    assert_eq!(uri.query(), Some("recursive=true"));

    let route = Route::MuteUser { user_id: user_id() };
    let uri = http::Uri::try_from(Path(route)).unwrap();
    assert_eq!(uri.to_string(), "/users/5/mute");

    let route = Route::GetGameTags {
        game_id: game_id(),
        show_hidden_tags: None,
    };
    let uri = http::Uri::try_from(Path(route)).unwrap();
    assert_eq!(uri.path(), "/games/1/tags");
    assert_eq!(uri.query(), None);
}

#[test]
fn same_path_routes_differ_in_method() {
    let mute = Route::MuteUser { user_id: user_id() };
    let unmute = Route::UnmuteUser { user_id: user_id() };
    assert_eq!(Path(mute).to_string(), Path(unmute).to_string());
    let (a, b) = (mute.into_parts(), unmute.into_parts());
    assert_eq!(a.method, Method::Post);
    assert_eq!(b.method, Method::Delete);
    assert_ne!(a.method, b.method);

    let get = Route::GetFile {
        game_id: game_id(),
        mod_id: mod_id(),
        file_id: file_id(),
    };
    let edit = Route::EditFile {
        game_id: game_id(),
        mod_id: mod_id(),
        file_id: file_id(),
    };
    let delete = Route::DeleteFile {
        game_id: game_id(),
        mod_id: mod_id(),
        file_id: file_id(),
    };
    assert_eq!(Path(get).to_string(), Path(edit).to_string());
    assert_eq!(Path(get).to_string(), Path(delete).to_string());
    assert_eq!(get.method(), Method::Get);
    assert_eq!(edit.method(), Method::Put);
    assert_eq!(delete.method(), Method::Delete);
}
