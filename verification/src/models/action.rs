//! GitHub Action metadata, as declared in an action's `action.yml`.

use crate::models::workflow::Step;
use crate::strmap::StrMap;
use vstd::prelude::*;

verus! {

/// Metadata for a GitHub Action.
#[derive(Debug, Clone)]
pub struct ActionMetadata {
    /// Action name.
    pub name: String,
    /// Action description.
    pub description: String,
    /// Action author.
    pub author: Option<String>,
    /// Input parameters, by name.
    pub inputs: StrMap<ActionInput>,
    /// Output values, by name.
    pub outputs: StrMap<ActionOutput>,
    /// How the action runs.
    pub runs: ActionRuns,
    /// Branding for the marketplace.
    pub branding: Option<ActionBranding>,
}

/// An input parameter of an action.
#[derive(Debug, Clone)]
pub struct ActionInput {
    /// Input description.
    pub description: String,
    /// Whether the input is required.
    pub required: bool,
    /// Default value.
    pub default: Option<String>,
    /// Deprecation message.
    pub deprecation_message: Option<String>,
}

/// An output value of an action.
#[derive(Debug, Clone)]
pub struct ActionOutput {
    /// Output description.
    pub description: String,
    /// Value expression (for composite actions).
    pub value: Option<String>,
}

/// How an action runs.
#[derive(Debug, Clone)]
pub enum ActionRuns {
    /// JavaScript action on Node 20.
    Node20 { main: String, pre: Option<String>, post: Option<String> },
    /// JavaScript action on Node 16.
    Node16 { main: String, pre: Option<String>, post: Option<String> },
    /// Docker action.
    Docker {
        image: String,
        entrypoint: Option<String>,
        args: Vec<String>,
        env: StrMap<String>,
    },
    /// Composite action.
    Composite { steps: Vec<Step> },
}

impl Default for ActionRuns {
    /// A composite action without steps.
    fn default() -> (r: ActionRuns)
        ensures
            r matches ActionRuns::Composite { steps } && steps@.len() == 0,
    {
        ActionRuns::Composite { steps: Vec::new() }
    }
}

/// Branding for marketplace display.
#[derive(Debug, Clone)]
pub struct ActionBranding {
    /// Icon name (from Feather icons).
    pub icon: Option<String>,
    /// Background color.
    pub color: Option<String>,
}

} // verus!
