//! Configuration values and the rules that combine them. Reading the
//! configuration file and the environment is the surrounding runtime's
//! business; the precedence and validation rules live here.

use vstd::prelude::*;
use crate::errors::ConfigError;

verus! {

/// Authentication settings.
#[derive(Clone, Debug, PartialEq, Eq)]
pub struct AuthConfig {
    pub token: String,
}

/// Terminal user-interface settings.
#[derive(Clone, Debug, PartialEq, Eq)]
pub struct UiConfig {
    pub theme: String,
    pub vim_mode: bool,
}

/// Message-cache settings.
#[derive(Clone, Debug, PartialEq, Eq)]
pub struct CacheConfig {
    pub max_messages: usize,
}

/// The application configuration.
#[derive(Clone, Debug, PartialEq, Eq)]
pub struct Config {
    pub auth: AuthConfig,
    pub ui: UiConfig,
    pub cache: CacheConfig,
}

impl Default for Config {
    fn default() -> (r: Self)
        ensures
            r.auth.token@ == Seq::<char>::empty(),
            r.ui.theme@ == "default"@,
            !r.ui.vim_mode,
            r.cache.max_messages == 100,
    {
        Config {
            auth: AuthConfig { token: String::new() },
            ui: UiConfig { theme: "default".to_owned(), vim_mode: false },
            cache: CacheConfig { max_messages: 100 },
        }
    }
}

impl Config {
    /// Settles the token: a token from the configuration file wins, an
    /// environment token is the fallback, and a configuration without
    /// either is rejected.
    pub fn resolve_token(self, env_token: Option<String>) -> (r: Result<Config, ConfigError>)
        ensures
            self.auth.token@.len() > 0 ==> r == Ok::<Config, ConfigError>(self),
            self.auth.token@.len() == 0 && env_token is Some && env_token->0@.len() > 0 ==> (r
                matches Ok(c) && c == (Config { auth: AuthConfig { token: env_token->0 }, ..self })),
            self.auth.token@.len() == 0 && (env_token is None || env_token->0@.len() == 0)
                ==> r == Err::<Config, ConfigError>(ConfigError::MissingToken),
    {
        if self.auth.token.as_str().is_empty() {
            match env_token {
                Some(t) => {
                    if !t.as_str().is_empty() {
                        Ok(Config { auth: AuthConfig { token: t }, ui: self.ui, cache: self.cache })
                    } else {
                        Err(ConfigError::MissingToken)
                    }
                },
                None => Err(ConfigError::MissingToken),
            }
        } else {
            Ok(self)
        }
    }
}

} // verus!
