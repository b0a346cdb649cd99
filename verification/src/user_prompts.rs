//! User prompt related functionality for WebDriver.
//!
//! See [18. User Prompts](https://www.w3.org/TR/webdriver1/#user-prompts) of the WebDriver
//! standard.
use crate::command::WebDriverCommand;
use vstd::prelude::*;

verus! {

/// `PromptAction` enumerates the different actions a client can take in response to a user
/// prompt or alert in the browser window.
#[derive(Debug, Clone, Copy, PartialEq, Eq, Structural)]
#[non_exhaustive]
pub enum PromptAction {
    /// `Accept` is equivalent to a user clicking the `OK` button in the prompt.
    Accept,
    /// `Dismiss` is equivalent to a user clicking the `Cancel` or `OK` button in the prompt,
    /// whichever is present and appears first.
    Dismiss,
}

impl PromptAction {
    /// The command that sends this response to the user prompt.
    pub fn command(&self) -> (c: WebDriverCommand)
        ensures
            *self == PromptAction::Accept ==> c is AcceptAlert,
            *self == PromptAction::Dismiss ==> c is DismissAlert,
    {
        match self {
            PromptAction::Accept => WebDriverCommand::AcceptAlert,
            PromptAction::Dismiss => WebDriverCommand::DismissAlert,
        }
    }
}

} // verus!
