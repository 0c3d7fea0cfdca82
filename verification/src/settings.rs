//! The agent's configuration, resolved from what the environment holds.

use vstd::prelude::*;
use vstd::string::*;
use crate::describe::{ApiSettings, DEFAULT_ENDPOINT, DEFAULT_MODEL, DEFAULT_PROMPT};
use crate::text::{parse_u64, unsigned_decimal};

verus! {

/// Seconds between two captures when none are configured.
pub const DEFAULT_INTERVAL_SECONDS: u64 = 60;

/// The folder that is written to when none is configured.
pub const DEFAULT_OUTPUT_FOLDER: &'static str = "output";

/// The configuration variables as they were found, `None` for one that is
/// not set.
#[derive(Debug, Clone, PartialEq, Eq)]
pub struct Environment {
    pub interval: Option<String>,
    pub output_folder: Option<String>,
    pub endpoint: Option<String>,
    pub api_key: Option<String>,
    pub model: Option<String>,
    pub prompt: Option<String>,
}

/// The resolved configuration.
#[derive(Debug, Clone, PartialEq, Eq)]
pub struct Settings {
    pub interval_seconds: u64,
    pub output_folder: String,
    pub api: ApiSettings,
}

/// Why the agent cannot start.
#[derive(Debug, Clone, PartialEq, Eq)]
pub enum ConfigError {
    /// The capture interval is no number of seconds; `text` is what was set.
    InvalidInterval { text: String },
    /// No API credential is set.
    MissingCredential,
}

/// A text variable's value: what was set, or the default.
pub open spec fn text_or(value: Option<String>, default: Seq<char>) -> Seq<char> {
    match value {
        Some(text) => text@,
        None => default,
    }
}

/// The capture interval that a setting gives: the default when nothing is
/// set, else the number of seconds that the text writes, if it writes one.
pub open spec fn interval_of(value: Option<String>) -> Option<int> {
    match value {
        Some(text) => unsigned_decimal(text@, u64::MAX as int),
        None => Some(DEFAULT_INTERVAL_SECONDS as int),
    }
}

/// Whether the environment gives a configuration, and which one.
pub open spec fn resolves_to(env: Environment, r: Result<Settings, ConfigError>) -> bool {
    match interval_of(env.interval) {
        None => r matches Err(ConfigError::InvalidInterval { text }) && Some(text) == env.interval,
        Some(seconds) => match env.api_key {
            None => r matches Err(ConfigError::MissingCredential),
            Some(key) => {
                &&& r matches Ok(s)
                &&& s.interval_seconds == seconds
                &&& s.output_folder@ == text_or(env.output_folder, DEFAULT_OUTPUT_FOLDER@)
                &&& s.api.endpoint@ == text_or(env.endpoint, DEFAULT_ENDPOINT@)
                &&& s.api.api_key@ == key@
                &&& s.api.model@ == text_or(env.model, DEFAULT_MODEL@)
                &&& s.api.prompt@ == text_or(env.prompt, DEFAULT_PROMPT@)
            },
        },
    }
}

/// The value of a text variable, or its default.
fn or_default(value: Option<String>, default: &str) -> (text: String)
    ensures
        text@ == text_or(value, default@),
{
    match value {
        Some(text) => text,
        None => String::from_str(default),
    }
}

/// Resolves the configuration. Every variable but the credential has a
/// default; an interval that is set must be a number of seconds. A bad
/// interval is reported before a missing credential.
pub fn resolve(env: Environment) -> (r: Result<Settings, ConfigError>)
    ensures
        resolves_to(env, r),
{
    let interval_seconds = match env.interval {
        Some(text) => match parse_u64(text.as_str()) {
            Some(seconds) => seconds,
            None => {
                return Err(ConfigError::InvalidInterval { text });
            },
        },
        None => DEFAULT_INTERVAL_SECONDS,
    };
    match env.api_key {
        None => Err(ConfigError::MissingCredential),
        Some(api_key) => Ok(
            Settings {
                interval_seconds,
                output_folder: or_default(env.output_folder, DEFAULT_OUTPUT_FOLDER),
                api: ApiSettings {
                    endpoint: or_default(env.endpoint, DEFAULT_ENDPOINT),
                    api_key,
                    model: or_default(env.model, DEFAULT_MODEL),
                    prompt: or_default(env.prompt, DEFAULT_PROMPT),
                },
            },
        ),
    }
}

} // verus!
