use std::str::FromStr;
use std::cmp::Ordering;

use modio::types::id::marker::{GameMarker, ModMarker};
use modio::types::id::{GameId, Id, ModId};

#[test]
fn from_str() {
    assert_eq!(
        Id::<GameMarker>::new(123),
        Id::<GameMarker>::from_str("123").unwrap()
    );
    assert!(Id::<GameMarker>::from_str("0").is_err());
    assert!(Id::<GameMarker>::from_str("123a").is_err());
}

#[test]
fn id_new_checked() {
    assert!(GameId::new_checked(0).is_none());
    assert_eq!(GameId::new_checked(7).map(Id::get), Some(7));
}

#[test]
fn id_get_and_transform() {
    let id = GameId::new(51);
    let other: ModId = id.transform();
    assert_eq!(other.get(), 51);
    assert_eq!(id.get(), 51);
}

#[test]
fn id_to_string() {
    assert_eq!(GameId::new(1).to_string(), "1");
    assert_eq!(GameId::new(1234567890).to_string(), "1234567890");
    assert_eq!(GameId::new(u64::MAX).to_string(), "18446744073709551615");
}

#[test]
fn id_parse_forms() {
    assert_eq!(Id::<ModMarker>::from_str("+42").unwrap().get(), 42);
    assert!(Id::<ModMarker>::from_str("").is_err());
    assert!(Id::<ModMarker>::from_str("-1").is_err());
    assert!(Id::<ModMarker>::from_str("18446744073709551616").is_err());
    assert_eq!(
        Id::<ModMarker>::from_str("18446744073709551615").unwrap().get(),
        u64::MAX
    );
}

#[test]
fn id_try_from_u64() {
    assert!(GameId::try_from(0u64).is_err());
    assert_eq!(GameId::try_from(42u64).map(Id::get), Ok(42));
}

#[test]
fn id_order_follows_value() {
    assert!(GameId::new(5) < GameId::new(6));
    assert!(GameId::new(6) > GameId::new(5));
    assert_eq!(GameId::new(7).partial_cmp(&GameId::new(7)), Some(Ordering::Equal));
    assert_eq!(GameId::new(9).cmp(&GameId::new(3)), Ordering::Greater);
    assert_eq!(GameId::new(8), 8u64);
    assert_eq!(8u64, GameId::new(8));
}
