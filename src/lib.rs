//! A URL-shortening service: short codes, bearer tokens, a store of short URLs
//! and the decisions taken on each request.
pub mod shortcode;
mod text;
pub mod errors;
pub mod schemas;
pub mod token;
pub mod models;
pub mod store;
pub mod handlers;
pub mod migrations;
