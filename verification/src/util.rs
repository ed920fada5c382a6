//! Utilities for uploading files in parts and for downloading them.
pub mod download;
pub mod pagination;
pub mod upload;
