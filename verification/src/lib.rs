//! Cross-catalog music search: the decisions behind token acquisition, the
//! loopback authorization exchange, the two-provider search sequence and the
//! cover-image pipeline, stated over plain values and verified.

pub mod auth;
pub mod bindings;
pub mod images;
pub mod links;
pub mod osu;
pub mod search;
pub mod spotify;
pub mod spotify_search;
pub mod text;
pub mod token;
