//! Which token a provider is called with.

use crate::config::{token_in, UnifiedConfig};
use crate::text::{blank_text, is_blank};
use crate::unified::{ErrorView, ProviderId, UnifiedError};
use vstd::prelude::*;
use vstd::string::*;

verus! {

/// The token to use: the value of the environment variable where it is set
/// and not blank, else the stored token, else none.
pub open spec fn resolved_token(env_value: Option<Seq<char>>, stored: Option<Seq<char>>) -> Option<
    Seq<char>,
> {
    match env_value {
        Some(value) => if blank_text(value) {
            stored
        } else {
            Some(value)
        },
        None => stored,
    }
}

/// Finds the token of a provider.
///
/// `env_value` is what the environment holds under `provider.env_var()`, if
/// anything. It wins over the stored token unless it is blank, and is handed
/// back as it is, untrimmed. Without either, the credential is missing.
pub fn resolve_token(provider: ProviderId, env_value: Option<&str>, config: &UnifiedConfig) -> (r:
    Result<String, UnifiedError>)
    ensures
        match resolved_token(env_value.deep_view(), token_in(config.tokens@, provider)) {
            Some(token) => r matches Ok(found) && found@ == token,
            None => r matches Err(e) && e@ == ErrorView::MissingToken(provider),
        },
{
    match env_value {
        Some(value) => {
            if !is_blank(value) {
                return Ok(value.to_owned());
            }
        },
        None => {},
    }
    match config.tokens.get(provider) {
        Some(token) => Ok(token.clone()),
        None => Err(UnifiedError::MissingToken(provider)),
    }
}

/// An environment value that is not blank wins over any stored token.
pub proof fn lemma_environment_wins(env_value: Seq<char>, stored: Option<Seq<char>>)
    requires
        !blank_text(env_value),
    ensures
        resolved_token(Some(env_value), stored) == Some(env_value),
{
}

/// A blank environment value counts as none: the stored token decides.
pub proof fn lemma_blank_environment_ignored(env_value: Seq<char>, stored: Option<Seq<char>>)
    requires
        blank_text(env_value),
    ensures
        resolved_token(Some(env_value), stored) == stored,
        resolved_token(Some(Seq::<char>::empty()), stored) == stored,
{
}

/// With no environment value and no stored token, there is no token.
pub proof fn lemma_missing_without_sources()
    ensures
        resolved_token(None, None) is None,
{
}

} // verus!
