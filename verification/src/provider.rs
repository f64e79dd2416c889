//! Which backend serves the conversation, and with which credentials.
//!
//! The backend is chosen once, before the conversation starts. Each choice
//! needs credentials of its own, which come from the command line or, where
//! the command line is silent, from the environment. A missing credential is
//! found here, not at the first completion. Reading the command line and the
//! environment is the caller's part; what is decided from them is done here.

use crate::content::{views, Message, MessageView};
use crate::error::{ConfigurationError, ConfigurationErrorView};
use crate::tool::{Tool, ToolView};
use vstd::prelude::*;

verus! {

/// The backends that can serve a conversation.
#[derive(Clone, Copy, Debug, PartialEq, Eq, Structural)]
pub enum ProviderVariant {
    OpenAi,
    Databricks,
}

/// Where the OpenAI-compatible backend is reached.
pub const OPENAI_HOST: &'static str = "https://api.openai.com";

/// The instructions that open every completion request.
pub const SYSTEM_PROMPT: &'static str = "You are a helpful assistant.";

/// What the command line says.
#[derive(Debug, PartialEq, Eq)]
pub struct Cli {
    pub provider: ProviderVariant,
    pub api_key: Option<String>,
    pub databricks_host: Option<String>,
    pub databricks_token: Option<String>,
    pub model: String,
}

/// What the environment says: the values of `OPENAI_API_KEY`,
/// `DATABRICKS_HOST` and `DATABRICKS_TOKEN`, where they are set.
#[derive(Debug, PartialEq, Eq)]
pub struct Environment {
    pub openai_api_key: Option<String>,
    pub databricks_host: Option<String>,
    pub databricks_token: Option<String>,
}

/// The credentials of the OpenAI-compatible backend.
#[derive(Debug, PartialEq, Eq)]
pub struct OpenAiProviderConfig {
    pub api_key: String,
    pub host: String,
}

/// The credentials of the Databricks backend.
#[derive(Debug, PartialEq, Eq)]
pub struct DatabricksProviderConfig {
    pub host: String,
    pub token: String,
}

/// The backend that was chosen, with its credentials.
#[derive(Debug, PartialEq, Eq)]
pub enum ProviderType {
    OpenAi(OpenAiProviderConfig),
    Databricks(DatabricksProviderConfig),
}

/// The view of a [`ProviderType`].
pub enum ProviderTypeView {
    OpenAi { api_key: Seq<char>, host: Seq<char> },
    Databricks { host: Seq<char>, token: Seq<char> },
}

impl View for ProviderType {
    type V = ProviderTypeView;

    open spec fn view(&self) -> ProviderTypeView {
        match self {
            ProviderType::OpenAi(config) => ProviderTypeView::OpenAi {
                api_key: config.api_key@,
                host: config.host@,
            },
            ProviderType::Databricks(config) => ProviderTypeView::Databricks {
                host: config.host@,
                token: config.token@,
            },
        }
    }
}

impl ProviderType {
    /// Which backend this is.
    pub fn variant(&self) -> (variant: ProviderVariant)
        ensures
            variant == match self@ {
                ProviderTypeView::OpenAi { .. } => ProviderVariant::OpenAi,
                ProviderTypeView::Databricks { .. } => ProviderVariant::Databricks,
            },
    {
        match self {
            ProviderType::OpenAi(_) => ProviderVariant::OpenAi,
            ProviderType::Databricks(_) => ProviderVariant::Databricks,
        }
    }
}

/// The text of an optional string.
pub open spec fn text_of(value: Option<String>) -> Option<Seq<char>> {
    match value {
        Some(text) => Some(text@),
        None => None,
    }
}

/// A setting: what the command line says, else what the environment says.
pub open spec fn setting(flag: Option<Seq<char>>, variable: Option<Seq<char>>) -> Option<
    Seq<char>,
> {
    match flag {
        Some(text) => Some(text),
        None => variable,
    }
}

/// Executable form of [`setting`].
fn choose_setting(flag: &Option<String>, variable: &Option<String>) -> (chosen: Option<String>)
    ensures
        text_of(chosen) == setting(text_of(*flag), text_of(*variable)),
{
    match flag {
        Some(text) => Some(text.clone()),
        None => match variable {
            Some(text) => Some(text.clone()),
            None => None,
        },
    }
}

/// The OpenAI-compatible backend as `cli` and `env` configure it: it needs
/// an API key, and is reached at [`OPENAI_HOST`].
pub open spec fn openai_provider(cli: Cli, env: Environment) -> Result<
    ProviderTypeView,
    ConfigurationErrorView,
> {
    match setting(text_of(cli.api_key), text_of(env.openai_api_key)) {
        Some(api_key) => Ok(ProviderTypeView::OpenAi { api_key, host: OPENAI_HOST@ }),
        None => Err(ConfigurationErrorView::MissingApiKey),
    }
}

/// The Databricks backend as `cli` and `env` configure it: it needs a token
/// and a host. A missing token is reported whether or not a host is given;
/// a missing host is reported when the token is there.
pub open spec fn databricks_provider(cli: Cli, env: Environment) -> Result<
    ProviderTypeView,
    ConfigurationErrorView,
> {
    match setting(text_of(cli.databricks_token), text_of(env.databricks_token)) {
        None => Err(ConfigurationErrorView::MissingDatabricksToken),
        Some(token) => match setting(
            text_of(cli.databricks_host),
            text_of(env.databricks_host),
        ) {
            Some(host) => Ok(ProviderTypeView::Databricks { host, token }),
            None => Err(ConfigurationErrorView::MissingDatabricksHost),
        },
    }
}

/// The backend that `cli` chooses, as `cli` and `env` configure it.
pub open spec fn provider(cli: Cli, env: Environment) -> Result<
    ProviderTypeView,
    ConfigurationErrorView,
> {
    match cli.provider {
        ProviderVariant::OpenAi => openai_provider(cli, env),
        ProviderVariant::Databricks => databricks_provider(cli, env),
    }
}

/// Whether `made` is the outcome that `wanted` describes.
pub open spec fn is_outcome(
    made: Result<ProviderType, ConfigurationError>,
    wanted: Result<ProviderTypeView, ConfigurationErrorView>,
) -> bool {
    match wanted {
        Ok(provider) => made matches Ok(p) && p@ == provider,
        Err(error) => made matches Err(e) && e@ == error,
    }
}

/// Configures the OpenAI-compatible backend.
pub fn create_openai_provider(cli: &Cli, env: &Environment) -> (made: Result<
    ProviderType,
    ConfigurationError,
>)
    ensures
        is_outcome(made, openai_provider(*cli, *env)),
{
    match choose_setting(&cli.api_key, &env.openai_api_key) {
        Some(api_key) => Ok(
            ProviderType::OpenAi(
                OpenAiProviderConfig { api_key, host: String::from_str(OPENAI_HOST) },
            ),
        ),
        None => Err(ConfigurationError::MissingApiKey),
    }
}

/// Configures the Databricks backend.
pub fn create_databricks_provider(cli: &Cli, env: &Environment) -> (made: Result<
    ProviderType,
    ConfigurationError,
>)
    ensures
        is_outcome(made, databricks_provider(*cli, *env)),
{
    match choose_setting(&cli.databricks_token, &env.databricks_token) {
        None => Err(ConfigurationError::MissingDatabricksToken),
        Some(token) => match choose_setting(&cli.databricks_host, &env.databricks_host) {
            Some(host) => Ok(ProviderType::Databricks(DatabricksProviderConfig { host, token })),
            None => Err(ConfigurationError::MissingDatabricksHost),
        },
    }
}

/// Configures the backend that the command line chooses.
pub fn get_provider(cli: &Cli, env: &Environment) -> (made: Result<
    ProviderType,
    ConfigurationError,
>)
    ensures
        is_outcome(made, provider(*cli, *env)),
{
    match cli.provider {
        ProviderVariant::OpenAi => create_openai_provider(cli, env),
        ProviderVariant::Databricks => create_databricks_provider(cli, env),
    }
}

/// Token accounting that comes back with a completion. The core does not
/// look at it.
#[derive(Clone, Copy, Debug, PartialEq, Eq, Structural)]
pub struct Usage {
    pub input_tokens: Option<i32>,
    pub output_tokens: Option<i32>,
    pub total_tokens: Option<i32>,
}

/// What is handed to the backend for one completion.
pub struct CompletionRequest<'a> {
    pub model: &'a str,
    pub system: &'a str,
    pub messages: Vec<&'a Message>,
    pub tools: &'a Vec<Tool>,
    pub max_tokens: Option<i32>,
}

/// The view of a [`CompletionRequest`].
pub struct CompletionRequestView {
    pub model: Seq<char>,
    pub system: Seq<char>,
    pub messages: Seq<MessageView>,
    pub tools: Seq<ToolView>,
    pub max_tokens: Option<i32>,
}

impl<'a> View for CompletionRequest<'a> {
    type V = CompletionRequestView;

    open spec fn view(&self) -> CompletionRequestView {
        CompletionRequestView {
            model: self.model@,
            system: self.system@,
            messages: views(self.messages@),
            tools: views(self.tools@),
            max_tokens: self.max_tokens,
        }
    }
}

} // verus!
