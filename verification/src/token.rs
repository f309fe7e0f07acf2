//! The token with which the bot authenticates, taken from the secrets of the
//! deployment.
//!
//! The secret store belongs to the hosting platform and is opaque here. What
//! this file believes of it is said by three items: the declaration of the
//! type, [`secrets_of`] for what a store holds, and the contract of
//! `secret_get` for what a lookup returns. Everything else is proved from
//! those.

use shuttle_secrets::SecretStore;
use vstd::prelude::*;

verus! {

/// The key under which a deployment keeps the bot's token.
pub const TOKEN_KEY: &'static str = "DISCORD_TOKEN";

/// `shuttle_secrets::SecretStore`, the secrets of a deployment as the
/// platform hands them over. Nothing inside a store is visible to the
/// verifier.
#[verifier::external_type_specification]
#[verifier::external_body]
pub struct ExSecretStore(shuttle_secrets::SecretStore);

/// The secrets that a store holds: each key with the text kept under it.
pub uninterp spec fn secrets_of(store: SecretStore) -> Map<Seq<char>, Seq<char>>;

/// Calls `SecretStore::get`. Believed, not proved: the call finds a value
/// exactly where the store holds `key`, and what it returns is a copy of the
/// text kept under that key.
#[verifier::external_body]
fn secret_get(store: &SecretStore, key: &str) -> (found: Option<String>)
    ensures
        found is Some <==> secrets_of(*store).contains_key(key@),
        found matches Some(value) ==> value@ == secrets_of(*store)[key@],
{
    store.get(key)
}

/// Why the bot could not start.
#[derive(Clone, Copy, Debug, PartialEq, Eq, Structural)]
pub enum StartupError {
    /// The deployment holds no token to authenticate with.
    MissingToken,
}

impl StartupError {
    /// The error in words.
    pub fn message(&self) -> (text: String)
        ensures
            match *self {
                StartupError::MissingToken => text@ == "'DISCORD_TOKEN' was not found"@,
            },
    {
        match self {
            StartupError::MissingToken => "'DISCORD_TOKEN' was not found".to_string(),
        }
    }
}

/// The token, where one was found; without one the bot cannot start.
pub fn require_token(found: Option<String>) -> (token: Result<String, StartupError>)
    ensures
        match found {
            Some(value) => token == Ok::<String, StartupError>(value),
            None => token == Err::<String, StartupError>(StartupError::MissingToken),
        },
{
    match found {
        Some(value) => Ok(value),
        None => Err(StartupError::MissingToken),
    }
}

/// The token that the deployment keeps under [`TOKEN_KEY`]: the text under
/// that key where the store holds it, and `MissingToken` where it does not.
pub fn discord_token(store: &SecretStore) -> (token: Result<String, StartupError>)
    ensures
        secrets_of(*store).contains_key(TOKEN_KEY@) ==> (token matches Ok(value) && value@
            == secrets_of(*store)[TOKEN_KEY@]),
        !secrets_of(*store).contains_key(TOKEN_KEY@) ==> token == Err::<String, StartupError>(
            StartupError::MissingToken,
        ),
{
    require_token(secret_get(store, TOKEN_KEY))
}

} // verus!
