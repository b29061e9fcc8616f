//! Entries of the tool catalogue.

use vstd::prelude::*;

verus! {

/// One request that a plugin serves.
#[derive(Debug, Clone)]
pub struct Tool {
    pub name: String,
    pub description: String,
    pub capability: String,
    pub endpoint: String,
    pub method: String,
    pub parameters: Vec<ToolParameter>,
    /// Whether what the plugin works on is there right now. A tool that is not
    /// available is listed, but cannot be used.
    pub available: bool,
}

/// One parameter of a request.
#[derive(Debug, Clone)]
pub struct ToolParameter {
    pub name: String,
    pub param_type: String,
    pub required: bool,
    pub description: String,
}

} // verus!
