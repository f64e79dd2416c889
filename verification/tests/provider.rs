use goose_cli::error::ConfigurationError;
use goose_cli::provider::{
    create_databricks_provider, create_openai_provider, get_provider, Cli,
    DatabricksProviderConfig, Environment, OpenAiProviderConfig, ProviderType, ProviderVariant,
    OPENAI_HOST, SYSTEM_PROMPT,
};

fn cli(provider: ProviderVariant) -> Cli {
    Cli {
        provider,
        api_key: None,
        databricks_host: None,
        databricks_token: None,
        model: "gpt-4o".to_string(),
    }
}

fn empty() -> Environment {
    Environment { openai_api_key: None, databricks_host: None, databricks_token: None }
}

fn some(text: &str) -> Option<String> {
    Some(text.to_string())
}

fn openai(key: &str) -> ProviderType {
    ProviderType::OpenAi(OpenAiProviderConfig {
        api_key: key.to_string(),
        host: "https://api.openai.com".to_string(),
    })
}

fn databricks(host: &str, token: &str) -> ProviderType {
    ProviderType::Databricks(DatabricksProviderConfig { host: host.to_string(), token: token.to_string() })
}

#[test]
fn fixed_texts() {
    assert_eq!(OPENAI_HOST, "https://api.openai.com");
    assert_eq!(SYSTEM_PROMPT, "You are a helpful assistant.");
}

#[test]
fn openai_key_from_the_command_line_wins() {
    let mut args = cli(ProviderVariant::OpenAi);
    args.api_key = some("from-flag");
    let mut env = empty();
    env.openai_api_key = some("from-env");
    assert_eq!(create_openai_provider(&args, &env), Ok(openai("from-flag")));
}

#[test]
fn openai_key_falls_back_to_the_environment() {
    let mut env = empty();
    env.openai_api_key = some("from-env");
    assert_eq!(create_openai_provider(&cli(ProviderVariant::OpenAi), &env), Ok(openai("from-env")));
}

#[test]
fn openai_without_a_key_is_a_configuration_error() {
    let mut env = empty();
    env.databricks_token = some("unrelated");
    let refused = create_openai_provider(&cli(ProviderVariant::OpenAi), &env);
    assert_eq!(refused, Err(ConfigurationError::MissingApiKey));
    assert_eq!(
        refused.expect_err("refused").message(),
        "API key must be provided via --api-key or OPENAI_API_KEY environment variable"
    );
}

#[test]
fn an_empty_key_counts_as_given() {
    let mut args = cli(ProviderVariant::OpenAi);
    args.api_key = some("");
    let mut env = empty();
    env.openai_api_key = some("from-env");
    assert_eq!(create_openai_provider(&args, &env), Ok(openai("")));
}

#[test]
fn databricks_without_a_host_is_a_configuration_error() {
    let mut args = cli(ProviderVariant::Databricks);
    args.databricks_token = some("tok");
    let mut env = empty();
    env.databricks_token = some("env-tok");
    env.openai_api_key = some("unrelated");
    let refused = create_databricks_provider(&args, &env);
    assert_eq!(refused, Err(ConfigurationError::MissingDatabricksHost));
    assert_eq!(
        refused.expect_err("refused").message(),
        "Databricks host must be provided via --databricks-host or DATABRICKS_HOST environment variable"
    );
}

#[test]
fn databricks_without_host_and_token_reports_the_token() {
    let refused = create_databricks_provider(&cli(ProviderVariant::Databricks), &empty());
    assert_eq!(refused, Err(ConfigurationError::MissingDatabricksToken));
    assert_eq!(
        refused.expect_err("refused").message(),
        "Databricks token must be provided via --databricks-token or DATABRICKS_TOKEN environment variable"
    );
}

#[test]
fn databricks_with_host_and_token_is_configured() {
    let mut args = cli(ProviderVariant::Databricks);
    args.databricks_host = some("https://flag.example");
    args.databricks_token = some("tok");
    assert_eq!(create_databricks_provider(&args, &empty()), Ok(databricks("https://flag.example", "tok")));
    let env = Environment {
        openai_api_key: None,
        databricks_host: some("https://env.example"),
        databricks_token: some("env-tok"),
    };
    assert_eq!(
        create_databricks_provider(&cli(ProviderVariant::Databricks), &env),
        Ok(databricks("https://env.example", "env-tok"))
    );
}

#[test]
fn databricks_settings_prefer_the_command_line() {
    let mut args = cli(ProviderVariant::Databricks);
    args.databricks_host = some("https://flag.example");
    let env = Environment {
        openai_api_key: None,
        databricks_host: some("https://env.example"),
        databricks_token: some("env-token"),
    };
    assert_eq!(create_databricks_provider(&args, &env), Ok(databricks("https://flag.example", "env-token")));
    args.databricks_host = None;
    args.databricks_token = some("flag-token");
    assert_eq!(create_databricks_provider(&args, &env), Ok(databricks("https://env.example", "flag-token")));
}

#[test]
fn databricks_without_a_token_is_a_configuration_error() {
    let mut args = cli(ProviderVariant::Databricks);
    args.databricks_host = some("https://flag.example");
    args.api_key = some("unrelated");
    let refused = create_databricks_provider(&args, &empty());
    assert_eq!(refused, Err(ConfigurationError::MissingDatabricksToken));
    assert_eq!(
        refused.expect_err("refused").message(),
        "Databricks token must be provided via --databricks-token or DATABRICKS_TOKEN environment variable"
    );
}

#[test]
fn get_provider_follows_the_chosen_variant() {
    let env = Environment {
        openai_api_key: some("key"),
        databricks_host: some("https://env.example"),
        databricks_token: some("tok"),
    };
    let chosen = get_provider(&cli(ProviderVariant::OpenAi), &env).expect("configured");
    assert_eq!(chosen, openai("key"));
    assert_eq!(chosen.variant(), ProviderVariant::OpenAi);
    let chosen = get_provider(&cli(ProviderVariant::Databricks), &env).expect("configured");
    assert_eq!(chosen, databricks("https://env.example", "tok"));
    assert_eq!(chosen.variant(), ProviderVariant::Databricks);
}

#[test]
fn get_provider_reports_the_missing_credential_of_the_chosen_variant() {
    let mut env = empty();
    env.openai_api_key = some("key");
    assert_eq!(
        get_provider(&cli(ProviderVariant::Databricks), &env),
        Err(ConfigurationError::MissingDatabricksToken)
    );
    env.databricks_host = some("https://env.example");
    assert_eq!(
        get_provider(&cli(ProviderVariant::Databricks), &env),
        Err(ConfigurationError::MissingDatabricksToken)
    );
    env.databricks_host = None;
    env.databricks_token = some("tok");
    assert_eq!(
        get_provider(&cli(ProviderVariant::Databricks), &env),
        Err(ConfigurationError::MissingDatabricksHost)
    );
    let mut env = empty();
    env.databricks_token = some("tok");
    assert_eq!(get_provider(&cli(ProviderVariant::OpenAi), &env), Err(ConfigurationError::MissingApiKey));
}
