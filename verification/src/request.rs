//! Typed requests of the API.
pub mod routing;
pub mod multipart;
pub mod submit_report;
pub mod user;
pub mod util;
