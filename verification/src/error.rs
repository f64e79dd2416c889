//! The errors that the core reports.

use crate::text::concat;
use vstd::prelude::*;

verus! {

/// A fault in how the client was set up. It is found before the
/// conversation starts and ends the program.
#[derive(Debug, PartialEq, Eq)]
pub enum ConfigurationError {
    /// The OpenAI-compatible backend was chosen and no API key was given.
    MissingApiKey,
    /// The Databricks backend was chosen and no host was given.
    MissingDatabricksHost,
    /// The Databricks backend was chosen and no token was given.
    MissingDatabricksToken,
    /// A tool was registered under a name that another tool already has.
    DuplicateTool { name: String },
    /// The parameter schema of a tool is not JSON.
    InvalidToolSchema { reason: String },
}

/// The view of a [`ConfigurationError`].
pub enum ConfigurationErrorView {
    MissingApiKey,
    MissingDatabricksHost,
    MissingDatabricksToken,
    DuplicateTool { name: Seq<char> },
    InvalidToolSchema { reason: Seq<char> },
}

impl View for ConfigurationError {
    type V = ConfigurationErrorView;

    open spec fn view(&self) -> ConfigurationErrorView {
        match self {
            ConfigurationError::MissingApiKey => ConfigurationErrorView::MissingApiKey,
            ConfigurationError::MissingDatabricksHost => {
                ConfigurationErrorView::MissingDatabricksHost
            },
            ConfigurationError::MissingDatabricksToken => {
                ConfigurationErrorView::MissingDatabricksToken
            },
            ConfigurationError::DuplicateTool { name } => ConfigurationErrorView::DuplicateTool {
                name: name@,
            },
            ConfigurationError::InvalidToolSchema { reason } => {
                ConfigurationErrorView::InvalidToolSchema { reason: reason@ }
            },
        }
    }
}

impl ConfigurationErrorView {
    /// The error in words.
    pub open spec fn message(self) -> Seq<char> {
        match self {
            ConfigurationErrorView::MissingApiKey => {
                "API key must be provided via --api-key or OPENAI_API_KEY environment variable"@
            },
            ConfigurationErrorView::MissingDatabricksHost => {
                "Databricks host must be provided via --databricks-host or DATABRICKS_HOST environment variable"@
            },
            ConfigurationErrorView::MissingDatabricksToken => {
                "Databricks token must be provided via --databricks-token or DATABRICKS_TOKEN environment variable"@
            },
            ConfigurationErrorView::DuplicateTool { name } => {
                "A tool is already registered under the name "@ + name
            },
            ConfigurationErrorView::InvalidToolSchema { reason } => {
                "Tool parameters are not valid JSON: "@ + reason
            },
        }
    }
}

impl ConfigurationError {
    /// The error in words.
    pub fn message(&self) -> (text: String)
        ensures
            text@ == self@.message(),
    {
        match self {
            ConfigurationError::MissingApiKey => String::from_str(
                "API key must be provided via --api-key or OPENAI_API_KEY environment variable",
            ),
            ConfigurationError::MissingDatabricksHost => String::from_str(
                "Databricks host must be provided via --databricks-host or DATABRICKS_HOST environment variable",
            ),
            ConfigurationError::MissingDatabricksToken => String::from_str(
                "Databricks token must be provided via --databricks-token or DATABRICKS_TOKEN environment variable",
            ),
            ConfigurationError::DuplicateTool { name } => concat(
                "A tool is already registered under the name ",
                name.as_str(),
            ),
            ConfigurationError::InvalidToolSchema { reason } => concat(
                "Tool parameters are not valid JSON: ",
                reason.as_str(),
            ),
        }
    }
}

/// A failure of the backend during a turn. The conversation goes on.
#[derive(Debug, PartialEq, Eq)]
pub struct ProviderError {
    pub message: String,
}

impl View for ProviderError {
    type V = Seq<char>;

    open spec fn view(&self) -> Seq<char> {
        self.message@
    }
}

} // verus!
