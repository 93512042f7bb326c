//! Where the API token and the base URL of the service come from.
//!
//! Each has up to three sources: a variable of the environment, the
//! configuration file, and for the base URL a built-in default. The
//! environment goes before the file, and the file before the default.

use crate::error::{Error, ErrorView};
use vstd::prelude::*;
use vstd::string::StringExecFns;

verus! {

/// Name of the environment variable that holds the API token.
pub const TOKEN_VARIABLE: &'static str = "DISTROPACK_API_TOKEN";

/// Name of the environment variable that holds the base URL.
pub const BASE_URL_VARIABLE: &'static str = "DISTROPACK_API_URL";

/// The service's address where nothing else is configured.
pub const DEFAULT_BASE_URL: &'static str = "https://distropack.dev";

/// What the configuration file holds. A file that does not exist holds
/// neither field.
#[derive(Clone, Debug, PartialEq, Eq)]
pub struct Config {
    pub api_token: Option<String>,
    pub base_url: Option<String>,
}

/// A [`Config`] as a mathematical value.
pub struct ConfigView {
    pub api_token: Option<Seq<char>>,
    pub base_url: Option<Seq<char>>,
}

impl View for Config {
    type V = ConfigView;

    open spec fn view(&self) -> ConfigView {
        ConfigView {
            api_token: self.api_token.deep_view(),
            base_url: self.base_url.deep_view(),
        }
    }
}

impl DeepView for Config {
    type V = ConfigView;

    open spec fn deep_view(&self) -> ConfigView {
        self@
    }
}

/// The API token in force: the environment's if it is set and not empty,
/// else the file's; none if the file has none either.
pub open spec fn resolve_token(environment: Option<Seq<char>>, config: ConfigView) -> Option<
    Seq<char>,
> {
    match environment {
        Some(token) if token.len() > 0 => Some(token),
        _ => config.api_token,
    }
}

/// The base URL in force: the environment's if it is set, else the file's,
/// else [`DEFAULT_BASE_URL`].
pub open spec fn resolve_base_url(environment: Option<Seq<char>>, config: ConfigView) -> Seq<
    char,
> {
    match environment {
        Some(url) => url,
        None => match config.base_url {
            Some(url) => url,
            None => DEFAULT_BASE_URL@,
        },
    }
}

impl Config {
    /// The API token in force, given the value of [`TOKEN_VARIABLE`] in the
    /// environment, if it is set.
    pub fn api_token(&self, environment: Option<String>) -> (token: Result<String, Error>)
        ensures
            match token {
                Ok(token) => resolve_token(environment.deep_view(), self@) == Some(token@),
                Err(error) => {
                    &&& resolve_token(environment.deep_view(), self@) is None
                    &&& error@ == ErrorView::NotConfigured
                },
            },
    {
        if let Some(token) = environment {
            if !token.as_str().is_empty() {
                return Ok(token);
            }
        }
        match &self.api_token {
            Some(token) => Ok(token.clone()),
            None => Err(Error::NotConfigured),
        }
    }

    /// The base URL in force, given the value of [`BASE_URL_VARIABLE`] in the
    /// environment, if it is set.
    pub fn base_url(&self, environment: Option<String>) -> (url: String)
        ensures
            url@ == resolve_base_url(environment.deep_view(), self@),
    {
        if let Some(url) = environment {
            return url;
        }
        match &self.base_url {
            Some(url) => url.clone(),
            None => String::from_str(DEFAULT_BASE_URL),
        }
    }
}

/// The environment decides the token whenever it holds one that is not
/// empty; the file decides it otherwise; and then there is a token exactly
/// if the file has one.
pub proof fn token_precedence(environment: Option<Seq<char>>, config: ConfigView)
    ensures
        environment matches Some(token) && token.len() > 0 ==> resolve_token(environment, config)
            == environment,
        environment is None || environment == Some(Seq::<char>::empty()) ==> resolve_token(
            environment,
            config,
        ) == config.api_token,
{
}

/// The environment decides the base URL whenever it holds one; the file
/// decides it otherwise; the default stands in where neither holds one.
pub proof fn base_url_precedence(environment: Option<Seq<char>>, config: ConfigView)
    ensures
        environment matches Some(url) ==> resolve_base_url(environment, config) == url,
        environment is None ==> (config.base_url matches Some(url) ==> resolve_base_url(
            environment,
            config,
        ) == url),
        environment is None && config.base_url is None ==> resolve_base_url(environment, config)
            == DEFAULT_BASE_URL@,
{
}

} // verus!
