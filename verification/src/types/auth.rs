//! Types of the authentication endpoints.
use vstd::prelude::*;

verus! {

/// See the [Access Token Object](https://docs.mod.io/#access-token-object) docs for more
/// information.
pub struct AccessToken {
    pub value: String,
    pub expired_at: Option<u64>,
}

/// See the [Terms Object](https://docs.mod.io/#terms-object) docs for more information.
#[derive(Debug)]
pub struct Terms {
    pub plaintext: String,
    pub html: String,
    pub links: Links,
}

/// Part of [`Terms`]
///
/// See the [Terms Object](https://docs.mod.io/#terms-object) docs for more information.
#[derive(Debug)]
pub struct Links {
    pub website: Link,
    pub terms: Link,
    pub privacy: Link,
    pub manage: Link,
}

/// Part of [`Terms`]
///
/// See the [Terms Object](https://docs.mod.io/#terms-object) docs for more information.
///
/// The URL is kept as text, in the form a URL parser writes it.
#[derive(Debug)]
pub struct Link {
    pub text: String,
    pub url: String,
    pub required: bool,
}

} // verus!
