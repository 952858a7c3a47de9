//! The keys of the web services, as the environment holds them.

use vstd::prelude::*;
use crate::text::optional_view;

verus! {

/// The name of the environment variable that holds the key of the
/// financial regulator's service.
pub const CMF_TOKEN_VARIABLE: &'static str = "CLFORGE_CMF_TOKEN";

/// The name of the environment variable that holds the key of the
/// procurement service.
pub const MARKET_TOKEN_VARIABLE: &'static str = "CLFORGE_MARKET_TOKEN";

/// What a setting holds: an empty value counts as none.
pub open spec fn setting_of(value: Option<Seq<char>>) -> Option<Seq<char>> {
    match value {
        Some(s) => if s.len() == 0 {
            None
        } else {
            Some(s)
        },
        None => None,
    }
}

/// Keeps a value that is not empty.
pub fn non_empty(value: Option<String>) -> (out: Option<String>)
    ensures
        optional_view(out) == setting_of(optional_view(value)),
{
    match value {
        Some(s) => if s.as_str().is_empty() {
            None
        } else {
            Some(s)
        },
        None => None,
    }
}

/// The keys of the two services; a service without a key has `None`.
#[derive(Debug, Clone, Default)]
pub struct Token {
    pub cmf: Option<String>,
    pub market: Option<String>,
}

impl Token {
    /// The keys, from the values that the two variables hold.
    pub fn from_values(cmf: Option<String>, market: Option<String>) -> (token: Token)
        ensures
            optional_view(token.cmf) == setting_of(optional_view(cmf)),
            optional_view(token.market) == setting_of(optional_view(market)),
    {
        Token { cmf: non_empty(cmf), market: non_empty(market) }
    }
}

/// The settings of the clients.
#[derive(Debug, Clone, Default)]
pub struct Config {
    pub tokens: Token,
}

impl Config {
    /// The settings, from the values that the two variables hold.
    pub fn from_values(cmf: Option<String>, market: Option<String>) -> (config: Config)
        ensures
            optional_view(config.tokens.cmf) == setting_of(optional_view(cmf)),
            optional_view(config.tokens.market) == setting_of(optional_view(market)),
    {
        Config { tokens: Token::from_values(cmf, market) }
    }
}

} // verus!
