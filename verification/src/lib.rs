//! Verified core of a desktop editor for GitHub Actions workflows.

pub mod text;
pub mod strmap;
pub mod time;
pub mod cache;
pub mod models;
pub mod github;
pub mod ui;
pub mod app;
