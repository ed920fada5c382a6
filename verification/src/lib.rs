//! A client library for the mod.io API: routes, typed identifiers, multipart
//! form encoding and the helpers for chunked uploads.
pub mod text;
pub mod types;
pub mod form;
pub mod method;
pub mod request;
pub mod response;
pub mod routing;
pub mod users;
pub mod util;
