//! What a family of models supports.

use vstd::prelude::*;

verus! {

/// Capabilities shared by the models of one family.
#[derive(Debug, PartialEq, Eq)]
pub struct ModelFamily {
    /// The full model identifier, such as `gpt-4.1-mini`.
    pub slug: String,
    /// The family the model belongs to, such as `gpt-4.1`.
    pub family: String,
    /// The model must be told how to write patches even when a patch tool is
    /// offered to it.
    pub needs_special_apply_patch_instructions: bool,
    /// The model can report summaries of its reasoning.
    pub supports_reasoning_summaries: bool,
}

impl Clone for ModelFamily {
    fn clone(&self) -> (copy: Self)
        ensures
            copy == *self,
    {
        ModelFamily {
            slug: self.slug.clone(),
            family: self.family.clone(),
            needs_special_apply_patch_instructions: self.needs_special_apply_patch_instructions,
            supports_reasoning_summaries: self.supports_reasoning_summaries,
        }
    }
}

} // verus!
