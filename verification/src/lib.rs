//! Verified core of a Navidrome lyrics plugin that fetches synced (TTML)
//! lyrics from Apple Music for tracks tagged with an iTunes catalog ID.

pub mod bytes;
pub mod text;
pub mod digits;
pub mod scan;
pub mod urls;
pub mod errors;
pub mod config;
pub mod models;
pub mod tags;
pub mod requests;
pub mod flows;
