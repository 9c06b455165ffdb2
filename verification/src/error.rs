//! Why a supervisor operation failed, and the sentence shown for each reason.

use vstd::prelude::*;
use vstd::string::*;

verus! {

/// Why starting or stopping the gateway failed.
#[derive(Debug, PartialEq, Eq)]
pub enum SidecarError {
    /// The settings could not be read; holds the sentence for the cause.
    ConfigUnreadable(String),
    /// The settings hold no credential.
    ConfigurationMissing,
    /// No gateway executable was found on this machine.
    ExecutableNotFound,
    /// The system refused to launch the gateway; holds its description.
    SpawnFailure(String),
    /// The system refused to terminate the gateway; holds its description.
    TerminationFailure(String),
    /// The supervisor's state could not be reached; holds the description.
    LockFailure(String),
}

/// What a `SidecarError` holds, as plain values.
pub enum SidecarErrorView {
    ConfigUnreadable(Seq<char>),
    ConfigurationMissing,
    ExecutableNotFound,
    SpawnFailure(Seq<char>),
    TerminationFailure(Seq<char>),
    LockFailure(Seq<char>),
}

impl View for SidecarError {
    type V = SidecarErrorView;

    open spec fn view(&self) -> SidecarErrorView {
        match self {
            SidecarError::ConfigUnreadable(e) => SidecarErrorView::ConfigUnreadable(e@),
            SidecarError::ConfigurationMissing => SidecarErrorView::ConfigurationMissing,
            SidecarError::ExecutableNotFound => SidecarErrorView::ExecutableNotFound,
            SidecarError::SpawnFailure(e) => SidecarErrorView::SpawnFailure(e@),
            SidecarError::TerminationFailure(e) => SidecarErrorView::TerminationFailure(e@),
            SidecarError::LockFailure(e) => SidecarErrorView::LockFailure(e@),
        }
    }
}

/// The sentence shown to the user for each failure. A missing executable
/// comes with the command that installs it.
pub open spec fn error_text(error: SidecarErrorView) -> Seq<char> {
    match error {
        SidecarErrorView::ConfigUnreadable(e) => "Failed to load config: "@ + e,
        SidecarErrorView::ConfigurationMissing =>
            "No API key configured. Please enter your Anthropic API key."@,
        SidecarErrorView::ExecutableNotFound =>
            "OpenClaw not found. Please install it with: npm install -g openclaw\nSee: https://docs.clawd.bot/install"@,
        SidecarErrorView::SpawnFailure(e) => "Failed to spawn gateway: "@ + e,
        SidecarErrorView::TerminationFailure(e) => "Failed to stop gateway: "@ + e,
        SidecarErrorView::LockFailure(e) => e,
    }
}

impl SidecarError {
    /// The sentence shown to the user for this failure.
    pub fn message(&self) -> (text: String)
        ensures
            text@ == error_text(self@),
    {
        match self {
            SidecarError::ConfigUnreadable(e) => String::from_str("Failed to load config: ").concat(
                e.as_str(),
            ),
            SidecarError::ConfigurationMissing => String::from_str(
                "No API key configured. Please enter your Anthropic API key.",
            ),
            SidecarError::ExecutableNotFound => String::from_str(
                "OpenClaw not found. Please install it with: npm install -g openclaw\nSee: https://docs.clawd.bot/install",
            ),
            SidecarError::SpawnFailure(e) => String::from_str("Failed to spawn gateway: ").concat(
                e.as_str(),
            ),
            SidecarError::TerminationFailure(e) => String::from_str(
                "Failed to stop gateway: ",
            ).concat(e.as_str()),
            SidecarError::LockFailure(e) => e.clone(),
        }
    }
}

} // verus!
