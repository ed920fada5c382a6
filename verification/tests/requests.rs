use modio::method::Method;
use modio::request::routing::{Path, Route};
use modio::routing::Route as OldRoute;
use modio::request::submit_report::SubmitReport;
use modio::request::user::{GetAuthenticatedUser, GetMutedUsers, GetUserRatings, MuteUser, UnmuteUser};
use modio::response::{outcome, BodyError, BodyErrorKind, Outcome};
use modio::types::id::{GameId, ModId, ResourceId, UserId};
use modio::users::Resource;
use modio::util::download::info::GetPrimaryFile;
use modio::util::download::{Error, ErrorKind};
use modio::util::pagination::{PageState, Paginator};
use modio::types::List;

#[test]
fn resource_query_string() {
    assert_eq!(
        Resource::Game(51).to_query_string(),
        "resource_type=games&resource_id=51"
    );
    assert_eq!(
        Resource::File(7).to_query_string(),
        "resource_type=files&resource_id=7"
    );
}

#[test]
fn submit_report_form() {
    let report = SubmitReport::new("mods", ResourceId::new(12), 0, "a b&c");
    let (route, form) = report.into_request();
    assert!(matches!(route, Route::SubmitReport));
    assert_eq!(form, "resource=mods&id=12&type=0&summary=a+b%26c");

    let report = SubmitReport::new("users", ResourceId::new(3), 1, "spam")
        .contact("me@example.com")
        .name("Jöhn");
    let (_, form) = report.into_request();
    assert_eq!(
        form,
        "resource=users&id=3&type=1&summary=spam&name=J%C3%B6hn&contact=me%40example.com"
    );
}

#[test]
fn user_requests() {
    assert!(matches!(
        GetAuthenticatedUser::new().into_request(),
        Route::UserAuthenticated
    ));
    let (route, filter) = GetMutedUsers::<u32>::new().into_request();
    assert!(matches!(route, Route::UserMuted));
    assert_eq!(filter, None);
    let (route, filter) = GetUserRatings::new().filter(5u32).filter(6).into_request();
    assert!(matches!(route, Route::UserRatings));
    assert_eq!(filter, Some(6));
    match MuteUser::new(UserId::new(9)).into_request() {
        Route::MuteUser { user_id } => assert_eq!(user_id.get(), 9),
        _ => panic!("wrong route"),
    }
    match UnmuteUser::new(UserId::new(9)).into_request() {
        Route::UnmuteUser { user_id } => assert_eq!(user_id.get(), 9),
        _ => panic!("wrong route"),
    }
}

#[test]
fn response_outcomes() {
    assert_eq!(outcome(200, None), Outcome::Success);
    assert_eq!(outcome(204, Some("10")), Outcome::Success);
    assert_eq!(outcome(429, Some("60")), Outcome::RateLimited(60));
    assert_eq!(outcome(429, Some("soon")), Outcome::ErrorBody);
    assert_eq!(outcome(404, None), Outcome::ErrorBody);
    assert_eq!(outcome(199, None), Outcome::ErrorBody);
    assert_eq!(outcome(300, None), Outcome::ErrorBody);
}

#[test]
fn body_errors() {
    let e: BodyError<()> = BodyError::decode(vec![1, 2], ());
    assert!(e.is_decode());
    assert!(!e.is_loading());
    assert_eq!(e.as_bytes(), Some(&[1u8, 2][..]));
    assert_eq!(e.to_string(), "failed to decode response body");
    let e: BodyError<()> = BodyError::new(BodyErrorKind::Loading, None);
    assert!(e.is_loading());
    assert_eq!(e.as_bytes(), None);
    assert!(e.source().is_none());
    let e: BodyError<u8> = BodyError::invalid_utf8(vec![0xff], 3);
    assert!(e.is_invalid_utf8());
    assert_eq!(e.source(), Some(&3));
    assert_eq!(e.to_string(), "response body is not a valid utf8 string");
}

#[test]
fn primary_file_lookup() {
    let lookup = GetPrimaryFile::new(GameId::new(1), ModId::new(2));
    let err: Option<Error<()>> = lookup.on_status(404);
    let err = err.unwrap();
    assert!(matches!(err.kind(), ErrorKind::ModNotFound { .. }));
    assert_eq!(err.to_string(), "Mod {id: 2, game_id: 1} not found.");
    assert!(lookup.on_status::<()>(200).is_none());
    assert_eq!(lookup.on_mod::<u32, ()>(Some(7)).ok(), Some(7));
    let err = lookup.on_mod::<u32, ()>(None).err().unwrap();
    assert!(matches!(err.kind(), ErrorKind::NoPrimaryFile { .. }));
}

fn list(data: Vec<u32>, offset: u32, limit: u32) -> List<u32> {
    List {
        count: data.len() as u32,
        total: 100,
        data,
        limit,
        offset,
    }
}

#[test]
fn pagination_steps() {
    let mut pages = Paginator::new(Route::UserMods);
    assert_eq!(pages.next_request(), Some(None));
    let page = pages.page_received(list(vec![1, 2, 3], 0, 3)).unwrap();
    assert_eq!(page.list().count, 3);
    assert_eq!(page.into_data(), vec![1, 2, 3]);
    assert_eq!(pages.next_request(), Some(Some(3)));
    assert!(pages.page_received(list(vec![4], 3, 3)).is_some());
    assert_eq!(pages.next_request(), Some(Some(6)));
    assert!(pages.page_received(list(vec![], 6, 3)).is_none());
    assert_eq!(pages.next_request(), None);
    assert_eq!(pages.next_request(), None);
    let _ = PageState::Start;
}

#[test]
fn pagination_failed_request_ends() {
    let mut pages = Paginator::new(Route::UserGames);
    assert_eq!(pages.next_request(), Some(None));
    // The request failed: no page arrives.
    assert_eq!(pages.next_request(), None);
}

#[test]
fn muted_users_listing_is_a_read() {
    assert!(matches!(Route::UserMuted.method(), Method::Get));
    assert!(matches!(OldRoute::UserMuted.method(), Method::Get));
    assert!(matches!(
        Route::MuteUser {
            user_id: UserId::new(5)
        }
        .method(),
        Method::Post
    ));
    assert_eq!(Path(Route::UserMuted).to_string(), "/me/users/muted");
}
