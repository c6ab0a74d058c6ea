//! Reasoning settings that a caller may ask of the model.

use vstd::prelude::*;

verus! {

/// How much effort the model spends on reasoning.
#[derive(Debug, Clone, Copy, PartialEq, Eq, Structural)]
pub enum ReasoningEffort {
    Minimal,
    Low,
    Medium,
    High,
}

impl Default for ReasoningEffort {
    fn default() -> (effort: Self)
        ensures
            effort == ReasoningEffort::Medium,
    {
        ReasoningEffort::Medium
    }
}

/// How the model summarises its reasoning.
#[derive(Debug, Clone, Copy, PartialEq, Eq, Structural)]
pub enum ReasoningSummary {
    Auto,
    Concise,
    Detailed,
    /// No summary is asked for.
    Off,
}

impl Default for ReasoningSummary {
    fn default() -> (summary: Self)
        ensures
            summary == ReasoningSummary::Auto,
    {
        ReasoningSummary::Auto
    }
}

} // verus!
