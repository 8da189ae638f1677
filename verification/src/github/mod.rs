//! What the GitHub integration decides: token validation results, repository
//! and marketplace data built from API responses, and version tags.

pub mod auth;
pub mod client;
pub mod marketplace;
