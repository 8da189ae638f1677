//! Data models: workflows, action metadata and marketplace data.

pub mod action;
pub mod marketplace;
pub mod workflow;
