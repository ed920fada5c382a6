//! Download interface for mod files.
pub mod error;
pub mod info;

pub use error::{Error, ErrorKind};
