use modio::util::download::info::Info;
use std::str::FromStr;

use modio::request::util::ArrayParams;
use modio::types::files::{
    file_fields, Download, File, FileHash, PlatformStatus, VirusResult, VirusScan, VirusStatus,
};
use modio::types::games::{
    CurationOption, MaturityOptions, PresentationOption, SubmissionOption, TagType,
};
use modio::types::id::{FileId, GameId, ModId};
use modio::types::mods::{
    statistics_fields, EventType as ModEventType, MetadataMap, Rating, TeamLevel, Visibility,
};
use modio::types::utils::{FieldError, SmallStr};
use modio::types::{EventType, Status, TargetPlatform, TargetPortal};

#[test]
fn target_platform_compare() {
    assert_eq!(TargetPlatform::ANDROID(), "ANDROID");
    assert_eq!("android", TargetPlatform::ANDROID());
}

#[test]
fn target_platform_serde() {
    let platform = TargetPlatform::parse("android").unwrap();
    assert_eq!(platform, TargetPlatform::ANDROID());
    assert_eq!(TargetPlatform::ANDROID().as_str(), "android");
}

#[test]
fn user_event_type_serde() {
    assert_eq!(EventType::parse("USER_TEAM_JOIN"), EventType::UserTeamJoin);
    assert_eq!(EventType::parse("USER_TEAM_LEAVE"), EventType::UserTeamLeave);
    assert_eq!(EventType::parse("USER_SUBSCRIBE"), EventType::UserSubscribe);
    assert_eq!(
        EventType::parse("USER_UNSUBSCRIBE"),
        EventType::UserUnsubscribe
    );
    assert_eq!(
        EventType::parse("foo"),
        EventType::Unknown("foo".to_owned())
    );
}

#[test]
fn mod_event_type_serde() {
    assert_eq!(
        ModEventType::parse("MODFILE_CHANGED"),
        ModEventType::ModfileChanged
    );
    assert_eq!(
        ModEventType::parse("MOD_AVAILABLE"),
        ModEventType::ModAvailable
    );
    assert_eq!(
        ModEventType::parse("MOD_UNAVAILABLE"),
        ModEventType::ModUnavailable
    );
    assert_eq!(ModEventType::parse("MOD_EDITED"), ModEventType::ModEdited);
    assert_eq!(ModEventType::parse("MOD_DELETED"), ModEventType::ModDeleted);
    assert_eq!(
        ModEventType::parse("MOD_TEAM_CHANGED"),
        ModEventType::ModTeamChanged
    );
    assert_eq!(
        ModEventType::parse("MOD_COMMENT_ADDED"),
        ModEventType::ModCommentAdded
    );
    assert_eq!(
        ModEventType::parse("MOD_COMMENT_DELETED"),
        ModEventType::ModCommentDeleted
    );
    assert_eq!(
        ModEventType::parse("foo"),
        ModEventType::Unknown("foo".to_owned())
    );
}

#[test]
fn serialize_array_params() {
    let items = ["aaa", "bbb", "ccc"];
    let params = ArrayParams::new("foo[]", &items);
    let entries = params.entries();
    assert_eq!(entries.len(), 3);
    assert_eq!(entries[0], ("foo[]", &"aaa"));
    assert_eq!(entries[1], ("foo[]", &"bbb"));
    assert_eq!(entries[2], ("foo[]", &"ccc"));
}

#[test]
fn event_type_to_string_round_trip() {
    for name in ["USER_TEAM_JOIN", "USER_SUBSCRIBE", "something_new"] {
        assert_eq!(EventType::parse(name).to_string(), name);
    }
    for name in ["MOD_EDITED", "MOD_COMMENT_DELETED", "other"] {
        assert_eq!(ModEventType::parse(name).to_string(), name);
    }
    // Names are matched exactly.
    assert_eq!(
        EventType::parse("user_team_join"),
        EventType::Unknown("user_team_join".to_owned())
    );
}

#[test]
fn target_platform_display_name() {
    assert_eq!(TargetPlatform::PS5().display_name(), "PlayStation 5");
    assert_eq!(TargetPlatform::IOS().display_name(), "iOS");
    assert_eq!(TargetPlatform::XBOX_SERIES_X().display_name(), "Xbox Series X/S");
    assert_eq!(TargetPlatform::SWITCH().to_string(), "Nintendo Switch");
    let other = TargetPlatform::parse("dreamcast").unwrap();
    assert_eq!(other.display_name(), "dreamcast");
}

#[test]
fn target_platform_parse_limits() {
    assert!(TargetPlatform::parse("0123456789abcdef").is_some());
    assert!(TargetPlatform::parse("0123456789abcdefg").is_none());
    assert!(TargetPortal::parse("0123456789ab").is_some());
    assert!(TargetPortal::parse("0123456789abc").is_none());
    assert_eq!(TargetPlatform::parse("").unwrap().as_str(), "");
}

#[test]
fn target_portal_compare() {
    assert_eq!(TargetPortal::STEAM(), "Steam");
    assert_eq!("XBOXLIVE", TargetPortal::XBOX_LIVE());
    assert_ne!(TargetPortal::GOG(), "egs");
    assert_eq!(TargetPortal::DISCORD().as_str(), "discord");
}

#[test]
fn small_str_round_trip() {
    let s = SmallStr::<8>::from_str("héllo").unwrap();
    assert_eq!(s.as_str(), "héllo");
    assert!(SmallStr::<4>::from_str("hello").is_none());
    let t = SmallStr::<6>::from_bytes(b"ab");
    assert_eq!(t.as_str(), "ab");
}

#[test]
fn numeric_newtypes() {
    assert_eq!(Status::ACCEPTED().get(), 1);
    assert_eq!(Status::DELETED(), Status::new(3));
    assert_eq!(VirusStatus::ERROR_SCANNING().get(), 5);
    assert_eq!(VirusResult::MALICIOUS(), VirusResult::new(1));
    assert_eq!(PlatformStatus::DENIED().get(), 2);
}

#[test]
fn tag_type_names() {
    assert_eq!(TagType::parse("checkboxes"), Some(TagType::Checkboxes));
    assert_eq!(TagType::parse("dropdown"), Some(TagType::Dropdown));
    assert_eq!(TagType::parse("Dropdown"), None);
    assert_eq!(TagType::Dropdown.to_string(), "dropdown");
}

#[test]
fn rating_from_fields() {
    assert_eq!(
        Rating::from_fields(1, 2, 1, 3),
        Ok(Rating::Positive {
            game_id: 1,
            mod_id: 2,
            date_added: 3
        })
    );
    assert_eq!(
        Rating::from_fields(1, 2, -1, 3),
        Ok(Rating::Negative {
            game_id: 1,
            mod_id: 2,
            date_added: 3
        })
    );
    assert_eq!(
        Rating::from_fields(1, 2, 0, 3),
        Err("invalid rating value: 0".to_owned())
    );
    assert_eq!(
        Rating::from_fields(1, 2, -128, 3),
        Err("invalid rating value: -128".to_owned())
    );
}

#[test]
fn team_level_numbers() {
    assert_eq!(TeamLevel::from_number(1), TeamLevel::Moderator);
    assert_eq!(TeamLevel::from_number(4), TeamLevel::Creator);
    assert_eq!(TeamLevel::from_number(8), TeamLevel::Admin);
    assert_eq!(TeamLevel::from_number(2), TeamLevel::Unknown(2));
    assert_eq!(TeamLevel::Admin.value(), 8);
    for n in 0..=255u8 {
        assert_eq!(TeamLevel::from_number(n).to_number(), n);
    }
}

#[test]
fn metadata_kvp_grouping() {
    let pairs = vec![
        ("pistol-dmg".to_owned(), "800".to_owned()),
        ("smg-dmg".to_owned(), "1200".to_owned()),
        ("pistol-dmg".to_owned(), "850".to_owned()),
    ];
    let map = MetadataMap::from_pairs(pairs);
    assert_eq!(map.len(), 2);
    assert_eq!(
        map.get("pistol-dmg"),
        Some(&vec!["800".to_owned(), "850".to_owned()])
    );
    assert_eq!(map.get("smg-dmg"), Some(&vec!["1200".to_owned()]));
    assert_eq!(map.get("rifle-dmg"), None);
}

#[test]
fn metadata_map_push() {
    let mut map = MetadataMap::with_capacity(4);
    assert!(map.is_empty());
    map.push("a".to_owned(), "1".to_owned());
    map.push("a".to_owned(), "2".to_owned());
    assert_eq!(map.len(), 1);
    assert_eq!(map.get("a"), Some(&vec!["1".to_owned(), "2".to_owned()]));
    assert!(MetadataMap::new().get("a").is_none());
}

#[test]
fn field_tracker_file_fields() {
    let mut fields = file_fields();
    assert_eq!(fields.visit("id"), Ok(Some(0)));
    assert_eq!(fields.visit("unknown"), Ok(None));
    assert_eq!(fields.visit("platforms"), Ok(Some(14)));
    assert_eq!(fields.visit("id"), Err(FieldError::Duplicate("id")));
    assert_eq!(fields.finish(), Err(FieldError::Missing("mod_id")));
    let names = [
        "mod_id",
        "date_added",
        "date_scanned",
        "virus_status",
        "virus_positive",
        "filesize",
        "filesize_uncompressed",
        "filehash",
        "filename",
        "version",
        "changelog",
        "metadata_blob",
    ];
    for name in names {
        assert!(fields.visit(name).unwrap().is_some());
    }
    assert_eq!(fields.finish(), Err(FieldError::Missing("download")));
    assert_eq!(fields.visit("download"), Ok(Some(13)));
    assert_eq!(fields.finish(), Ok(()));
}

#[test]
fn field_tracker_statistics_fields() {
    let mut fields = statistics_fields();
    assert_eq!(fields.visit("date_expires"), Ok(Some(12)));
    assert_eq!(fields.visit("Mod_id"), Ok(None));
    assert_eq!(fields.finish(), Err(FieldError::Missing("mod_id")));
}

#[test]
fn option_numbers() {
    assert_eq!(PresentationOption::from_number(1), PresentationOption::TableView);
    assert_eq!(SubmissionOption::from_number(0), SubmissionOption::ApiOnly);
    assert_eq!(CurationOption::from_number(2), CurationOption::Full);
    assert_eq!(CurationOption::from_number(3), CurationOption::Unknown(3));
    assert_eq!(MaturityOptions::Allowed.to_number(), 1);
    assert_eq!(Visibility::from_number(0), Visibility::Hidden);
    assert_eq!(Visibility::Unknown(7).to_number(), 7);
}

#[test]
fn id_text_round_trip() {

    for v in [1u64, 9, 10, 1234567890, u64::MAX] {
        let id = GameId::new(v);
        assert_eq!(GameId::from_str(&id.to_string()).unwrap(), id);
    }
    assert!(GameId::from_str("+12").is_ok());
    assert!(GameId::from_str("18446744073709551616").is_err());
    assert_eq!(GameId::new(5), 5u64);
    assert_eq!(5u64, GameId::new(5));
    assert_eq!(u64::from(GameId::new(6)), 6);
    assert!(GameId::new(5) < GameId::new(6));
}

#[test]
fn known_codes() {
    let platforms = [
        (TargetPlatform::ANDROID(), "android", "Android"),
        (TargetPlatform::IOS(), "ios", "iOS"),
        (TargetPlatform::LINUX(), "linux", "Linux"),
        (TargetPlatform::MAC(), "mac", "Mac"),
        (TargetPlatform::WINDOWS(), "windows", "Windows"),
        (TargetPlatform::PS4(), "ps4", "PlayStation 4"),
        (TargetPlatform::PS5(), "ps5", "PlayStation 5"),
        (TargetPlatform::SOURCE(), "source", "Source"),
        (TargetPlatform::SWITCH(), "switch", "Nintendo Switch"),
        (TargetPlatform::XBOX_ONE(), "xboxone", "Xbox One"),
        (TargetPlatform::XBOX_SERIES_X(), "xboxseriesx", "Xbox Series X/S"),
        (TargetPlatform::OCULUS(), "oculus", "Oculus"),
    ];
    for (p, code, name) in platforms {
        assert_eq!(p.as_str(), code);
        assert_eq!(p.display_name(), name);
    }
    let portals = [
        (TargetPortal::STEAM(), "steam"),
        (TargetPortal::GOG(), "gog"),
        (TargetPortal::EGS(), "egs"),
        (TargetPortal::ITCHIO(), "itchio"),
        (TargetPortal::NINTENDO(), "nintendo"),
        (TargetPortal::PSN(), "psn"),
        (TargetPortal::XBOX_LIVE(), "xboxlive"),
        (TargetPortal::APPLE(), "apple"),
        (TargetPortal::GOOGLE(), "google"),
        (TargetPortal::FACEBOOK(), "facebook"),
        (TargetPortal::DISCORD(), "discord"),
    ];
    for (p, code) in portals {
        assert_eq!(p.as_str(), code);
    }
    assert_eq!(Status::NOT_ACCEPTED().get(), 0);
    assert_eq!(VirusStatus::NOT_SCANNED().get(), 0);
    assert_eq!(VirusStatus::SCAN_COMPLETED().get(), 1);
    assert_eq!(VirusStatus::IN_PROGRESS().get(), 2);
    assert_eq!(VirusStatus::TOO_LARGE_TO_SCAN().get(), 3);
    assert_eq!(VirusStatus::FILE_NOT_FOUND().get(), 4);
    assert_eq!(VirusResult::NO_THREATS_DETECTED().get(), 0);
    assert_eq!(VirusResult::POTENTIALLY_HARMFUL().get(), 2);
    assert_eq!(PlatformStatus::PENDING().get(), 0);
    assert_eq!(PlatformStatus::APPROVED().get(), 1);
}

#[test]
fn metadata_map_clone_and_default() {
    let pairs = vec![
        ("a".to_owned(), "1".to_owned()),
        ("b".to_owned(), "2".to_owned()),
        ("a".to_owned(), "3".to_owned()),
    ];
    let map = MetadataMap::from_pairs(pairs);
    let copy = map.clone();
    assert_eq!(copy.len(), 2);
    assert_eq!(copy.get("a"), Some(&vec!["1".to_owned(), "3".to_owned()]));
    assert_eq!(copy.get("b"), Some(&vec!["2".to_owned()]));
    let empty = MetadataMap::default();
    assert!(empty.is_empty());
    assert_eq!(empty.get("a"), None);
}

#[test]
fn user_holds_optional_avatar() {
    let user = modio::types::User {
        id: 1,
        name_id: "name".to_owned(),
        username: "Name".to_owned(),
        date_online: 0,
        avatar: None,
        profile_url: "https://mod.io/u/name".to_owned(),
    };
    let member = modio::types::mods::TeamMember {
        id: 2,
        user,
        level: TeamLevel::from_number(8),
        date_added: 0,
        position: "Admin".to_owned(),
    };
    assert!(member.user.avatar.is_none());
    assert_eq!(member.level.to_number(), 8);
}

#[test]
fn download_info_of_file() {
    let file = File {
        id: FileId::new(3),
        mod_id: ModId::new(2),
        date_added: 1,
        virus_scan: VirusScan {
            date_scanned: 1,
            status: VirusStatus::SCAN_COMPLETED(),
            result: VirusResult::NO_THREATS_DETECTED(),
        },
        filesize: 100,
        filesize_uncompressed: 250,
        filehash: FileHash { md5: "abc123".to_owned() },
        filename: "mod.zip".to_owned(),
        version: None,
        changelog: None,
        metadata_blob: None,
        download: Download {
            binary_url: "https://mod.io/f/3".to_owned(),
            date_expires: 9,
        },
        platforms: Vec::new(),
    };
    let info = Info::of_file(file);
    assert_eq!(info.file_id, FileId::new(3));
    assert_eq!(info.download_url, "https://mod.io/f/3");
    assert_eq!(info.filesize, 100);
    assert_eq!(info.filesize_uncompressed, 250);
    assert_eq!(info.filehash, "abc123");
}
