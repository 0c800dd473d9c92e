//! The settings that the flows read. They are fixed for the life of the process.

use vstd::prelude::*;
use crate::text::{holds_text, texts};

verus! {

/// The settings of the single sign-on bridge.
#[derive(Clone, Debug)]
pub struct SsoConfig {
    /// Whether single sign-on is switched on.
    pub enabled: bool,
    /// The identifier of this client at the provider.
    pub client_id: String,
    /// The issuer that the provider's tokens must name.
    pub authority: String,
    /// The scopes to ask for, all of them.
    pub scopes: Vec<String>,
    /// Where the provider's public key is looked for.
    pub key_filepath: String,
    /// For how many seconds a refresh token counts as valid where it does not say.
    pub default_refresh_validity: u32,
    /// The issuer that the application's own session tokens name.
    pub login_issuer: String,
}

/// The scope that asks the provider for a refresh token.
pub open spec fn offline_access() -> Seq<char> {
    "offline_access"@
}

impl SsoConfig {
    /// Whether the configured scopes ask for offline access.
    pub open spec fn wants_offline_access(&self) -> bool {
        texts(self.scopes@).contains(offline_access())
    }

    /// Whether the configured scopes ask for offline access.
    pub fn offline_access_requested(&self) -> (r: bool)
        ensures
            r == self.wants_offline_access(),
    {
        holds_text(&self.scopes, "offline_access")
    }

    /// Whether the key file is to be read at startup: only with single sign-on
    /// switched on.
    pub fn key_file_wanted(&self) -> (r: bool)
        ensures
            r == self.enabled,
    {
        self.enabled
    }
}

} // verus!
