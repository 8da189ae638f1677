//! What the user interface decides apart from drawing: fuzzy ranking of
//! actions, and the labels it shows.

pub mod components;
pub mod labels;
