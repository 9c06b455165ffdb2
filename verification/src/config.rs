//! The persisted settings record, its defaults, and what the settings
//! commands compute once the record has been read.

use vstd::prelude::*;
use vstd::string::*;
use crate::text::text_view;

verus! {

/// Port the gateway listens on when the settings name none.
pub fn default_port() -> (port: u16)
    ensures
        port == 18789,
{
    18789
}

/// Whether the gateway starts with the application when the settings do not say.
pub fn default_auto_start() -> (auto_start: bool)
    ensures
        auto_start,
{
    true
}

/// The settings the user keeps between runs.
#[derive(Debug, PartialEq, Eq)]
pub struct Config {
    /// Credential handed to the gateway; absent until the user enters one.
    pub anthropic_api_key: Option<String>,
    /// Port the gateway is told to listen on.
    pub gateway_port: u16,
    /// Whether the gateway starts together with the application.
    pub auto_start_gateway: bool,
}

/// What a `Config` holds, as plain values.
pub struct ConfigView {
    pub anthropic_api_key: Option<Seq<char>>,
    pub gateway_port: u16,
    pub auto_start_gateway: bool,
}

impl View for Config {
    type V = ConfigView;

    open spec fn view(&self) -> ConfigView {
        ConfigView {
            anthropic_api_key: text_view(self.anthropic_api_key),
            gateway_port: self.gateway_port,
            auto_start_gateway: self.auto_start_gateway,
        }
    }
}

/// The settings of a fresh installation: no credential, port 18789,
/// automatic start.
pub open spec fn default_config() -> ConfigView {
    ConfigView { anthropic_api_key: None, gateway_port: 18789, auto_start_gateway: true }
}

impl Default for Config {
    fn default() -> (config: Self)
        ensures
            config@ == default_config(),
    {
        Config {
            anthropic_api_key: None,
            gateway_port: default_port(),
            auto_start_gateway: default_auto_start(),
        }
    }
}

impl Config {
    /// The settings in force, given what the settings file held: where
    /// there is no file yet, the defaults; otherwise the record as read, or
    /// the reason why it could not be read.
    pub fn load(stored: Option<Result<Config, ConfigError>>) -> (loaded: Result<
        Config,
        ConfigError,
    >)
        ensures
            match stored {
                None => loaded is Ok && loaded->Ok_0@ == default_config(),
                Some(found) => loaded == found,
            },
    {
        match stored {
            None => Ok(Config::default()),
            Some(found) => found,
        }
    }
}

impl Clone for Config {
    fn clone(&self) -> (copy: Self)
        ensures
            copy == *self,
    {
        let key = match &self.anthropic_api_key {
            Some(k) => Some(k.clone()),
            None => None,
        };
        Config {
            anthropic_api_key: key,
            gateway_port: self.gateway_port,
            auto_start_gateway: self.auto_start_gateway,
        }
    }
}

/// Why the settings could not be read or written.
#[derive(Debug, PartialEq, Eq)]
pub enum ConfigError {
    /// The platform names no directory for configuration files.
    NoConfigDir,
    /// Reading or writing the file failed; holds the system's description.
    Io(String),
    /// The file's contents are not a settings record; holds the parser's
    /// description.
    Json(String),
}

/// What a `ConfigError` holds, as plain values.
pub enum ConfigErrorView {
    NoConfigDir,
    Io(Seq<char>),
    Json(Seq<char>),
}

impl View for ConfigError {
    type V = ConfigErrorView;

    open spec fn view(&self) -> ConfigErrorView {
        match self {
            ConfigError::NoConfigDir => ConfigErrorView::NoConfigDir,
            ConfigError::Io(e) => ConfigErrorView::Io(e@),
            ConfigError::Json(e) => ConfigErrorView::Json(e@),
        }
    }
}

/// The sentence shown to the user for each settings error.
pub open spec fn config_error_text(error: ConfigErrorView) -> Seq<char> {
    match error {
        ConfigErrorView::NoConfigDir => "Failed to get config directory"@,
        ConfigErrorView::Io(e) => "IO error: "@ + e,
        ConfigErrorView::Json(e) => "JSON error: "@ + e,
    }
}

impl ConfigError {
    /// The sentence shown to the user for this error.
    pub fn message(&self) -> (text: String)
        ensures
            text@ == config_error_text(self@),
    {
        match self {
            ConfigError::NoConfigDir => String::from_str("Failed to get config directory"),
            ConfigError::Io(e) => String::from_str("IO error: ").concat(e.as_str()),
            ConfigError::Json(e) => String::from_str("JSON error: ").concat(e.as_str()),
        }
    }
}

/// A settings record as read, or the sentence for why it could not be read.
pub open spec fn loaded_view(loaded: Result<Config, ConfigError>) -> Result<ConfigView, Seq<char>> {
    match loaded {
        Ok(config) => Ok(config@),
        Err(error) => Err(config_error_text(error@)),
    }
}

/// The view of settings that came with a textual error.
pub open spec fn settings_view(settings: Result<Config, String>) -> Result<ConfigView, Seq<char>> {
    match settings {
        Ok(config) => Ok(config@),
        Err(text) => Err(text@),
    }
}

/// Answers the front end's request for the settings: the record as read,
/// or the sentence for the error.
pub fn get_config(loaded: Result<Config, ConfigError>) -> (answer: Result<Config, String>)
    ensures
        settings_view(answer) == loaded_view(loaded),
{
    match loaded {
        Ok(config) => Ok(config),
        Err(error) => Err(error.message()),
    }
}

/// The record to write back when the user enters the credential `key`:
/// the record as read with the credential replaced, everything else kept.
/// Where the record could not be read, nothing is to be written and the
/// sentence for the error is returned.
pub fn set_api_key(loaded: Result<Config, ConfigError>, key: String) -> (answer: Result<
    Config,
    String,
>)
    ensures
        settings_view(answer) == (match loaded_view(loaded) {
            Ok(config) => Ok(
                ConfigView {
                    anthropic_api_key: Some(key@),
                    gateway_port: config.gateway_port,
                    auto_start_gateway: config.auto_start_gateway,
                },
            ),
            Err(text) => Err(text),
        }),
{
    match loaded {
        Ok(config) => {
            let mut config = config;
            config.anthropic_api_key = Some(key);
            Ok(config)
        },
        Err(error) => Err(error.message()),
    }
}

/// Whether the settings as read hold a credential, or the sentence for why
/// they could not be read.
pub fn has_api_key(loaded: Result<Config, ConfigError>) -> (answer: Result<bool, String>)
    ensures
        match loaded_view(loaded) {
            Ok(config) => answer == Ok::<bool, String>(config.anthropic_api_key is Some),
            Err(text) => answer is Err && answer->Err_0@ == text,
        },
{
    match loaded {
        Ok(config) => Ok(config.anthropic_api_key.is_some()),
        Err(error) => Err(error.message()),
    }
}

} // verus!
