//! A small blog-post service: posts are created unpublished, published by
//! identifier, and searched by title among the published ones.
//!
//! - `models`, `dao`, `encode`: the stored post, the post on the wire, and
//!   the way from the first to the second.
//! - `db`: the table of posts, its three operations, and what holds of them.
//! - `json`, `number`, `query`, `text`: the texts that come in and go out.
//! - `response`, `route`, `server`: from a request to a response.
//! - `sql`: the search pattern for a table that a database keeps.

pub mod dao;
pub mod db;
pub mod encode;
pub mod json;
pub mod models;
pub mod number;
pub mod query;
pub mod response;
pub mod route;
pub mod server;
pub mod sql;
pub mod text;
