//! Builds request URIs for a music-scrobbling web service's top-artists
//! query, decodes the JSON responses, and formats the results as a
//! one-line summary and a plain per-artist listing.

pub mod config;
pub mod decode;
pub mod error;
pub mod output;
pub mod text;
