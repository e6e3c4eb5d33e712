//! The process configuration, as plain values.

use crate::hypervisor::languages::Languages;
use crate::text::lists;
use vstd::prelude::*;

verus! {

/// The environment the application runs in.
#[derive(Debug, Clone, Copy, PartialEq, Eq, Structural)]
pub enum Environment {
    /// Development environment
    Development,
    /// Production environment
    Production,
}

impl Environment {
    /// The name the environment is configured and logged under.
    pub open spec fn name_spec(self) -> Seq<char> {
        match self {
            Environment::Development => "development"@,
            Environment::Production => "production"@,
        }
    }

    /// The name the environment is configured and logged under.
    pub fn name(&self) -> (res: &'static str)
        ensures
            res@ == self.name_spec(),
    {
        match self {
            Environment::Development => "development",
            Environment::Production => "production",
        }
    }
}

/// Application configuration. It is built once at startup and never changed
/// afterwards; every component that needs it is handed a reference.
#[derive(Debug, Clone)]
pub struct Config {
    /// The environment the application is running in
    pub environment: Environment,
    /// The Discord token for the bot
    pub discord_token: String,
    /// The Discord application id for the bot
    pub discord_application_id: u64,
    /// The display names of the enabled languages
    pub languages: Vec<String>,
    /// The Docker api endpoint
    pub docker_endpoint: String,
    /// The hardened container runtime to request, where the host has one
    pub docker_runtime: Option<String>,
    /// The database url
    pub database_url: String,
}

impl Config {
    /// Whether the configuration enables `language`: whether the display name
    /// of the language is among the configured names.
    pub open spec fn enables(&self, language: Languages) -> bool {
        lists(self.languages@, language.name_spec())
    }
}

} // verus!
