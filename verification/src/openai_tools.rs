//! Tools offered to the model.

use vstd::prelude::*;

verus! {

/// A function tool, called by name.
#[derive(Debug, PartialEq, Eq)]
pub struct ResponsesApiTool {
    pub name: String,
    pub description: String,
    pub strict: bool,
}

impl Clone for ResponsesApiTool {
    fn clone(&self) -> (copy: Self)
        ensures
            copy == *self,
    {
        ResponsesApiTool {
            name: self.name.clone(),
            description: self.description.clone(),
            strict: self.strict,
        }
    }
}

/// A tool that the model may call during a turn.
#[derive(Debug, PartialEq, Eq)]
pub enum OpenAiTool {
    Function(ResponsesApiTool),
    LocalShell,
}

impl Clone for OpenAiTool {
    fn clone(&self) -> (copy: Self)
        ensures
            copy == *self,
    {
        match self {
            OpenAiTool::Function(tool) => OpenAiTool::Function(tool.clone()),
            OpenAiTool::LocalShell => OpenAiTool::LocalShell,
        }
    }
}

} // verus!
