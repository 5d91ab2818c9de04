//! A content-addressed image cache: where an image fetched from a URL is kept
//! on disk, how it is fetched, and what is done when a fetch is challenged.
//!
//! The crate decides; it performs no I/O. The storage and network steps are
//! handed to the caller as [`protocol::Action`] values, and their outcomes come
//! back as [`protocol::Event`] values.

pub mod app_service;
pub mod cache_key;
pub mod cached_image;
pub mod dtos;
pub mod error;
pub mod http_error;
pub mod layout;
pub mod model;
pub mod order;
pub mod protocol;
pub mod response;
pub mod text;
