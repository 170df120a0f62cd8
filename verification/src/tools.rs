//! Tools of the application that agents may call.

use vstd::prelude::*;
use vstd::string::*;

verus! {

/// Why a tool was not called, or did not succeed.
#[derive(Debug, PartialEq, Eq)]
pub enum ToolError {
    NotGranted,
    InvalidArguments(String),
    Handler(String),
    Cancelled,
}

/// What a `ToolError` holds.
pub enum ToolErrorView {
    NotGranted,
    InvalidArguments(Seq<char>),
    Handler(Seq<char>),
    Cancelled,
}

impl DeepView for ToolError {
    type V = ToolErrorView;

    open spec fn deep_view(&self) -> ToolErrorView {
        match self {
            ToolError::NotGranted => ToolErrorView::NotGranted,
            ToolError::InvalidArguments(text) => ToolErrorView::InvalidArguments(text@),
            ToolError::Handler(text) => ToolErrorView::Handler(text@),
            ToolError::Cancelled => ToolErrorView::Cancelled,
        }
    }
}

impl ToolErrorView {
    /// The error in words.
    pub open spec fn message(self) -> Seq<char> {
        match self {
            ToolErrorView::NotGranted => "tool is not granted"@,
            ToolErrorView::InvalidArguments(text) => "invalid tool arguments: "@ + text,
            ToolErrorView::Handler(text) => text,
            ToolErrorView::Cancelled => "tool invocation was cancelled"@,
        }
    }
}

impl ToolError {
    /// The error in words.
    pub fn to_string(&self) -> (r: String)
        ensures
            r@ == self.deep_view().message(),
    {
        match self {
            ToolError::NotGranted => "tool is not granted".to_owned(),
            ToolError::InvalidArguments(text) => {
                let mut message = "invalid tool arguments: ".to_owned();
                message.append(text.as_str());
                message
            },
            ToolError::Handler(text) => text.clone(),
            ToolError::Cancelled => "tool invocation was cancelled".to_owned(),
        }
    }
}

} // verus!
