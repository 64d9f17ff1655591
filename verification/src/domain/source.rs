//! LX Music sources: one per bound account.
use vstd::prelude::*;

use crate::domain::provider::ProviderKind;

verus! {

/// A custom LX Music source bound to an account.
#[derive(Debug)]
pub struct Source {
    pub source_id: String,
    pub account_id: String,
    pub provider: ProviderKind,
    pub name: String,
    pub enabled: bool,
    /// The token in the URL of the source's script.
    pub script_token: String,
    /// The bearer token with which the script calls the runtime API.
    pub runtime_token: String,
    pub created_at: i64,
    pub updated_at: i64,
}

impl Clone for Source {
    fn clone(&self) -> (r: Self)
        ensures
            r == *self,
    {
        Source {
            source_id: self.source_id.clone(),
            account_id: self.account_id.clone(),
            provider: self.provider,
            name: self.name.clone(),
            enabled: self.enabled,
            script_token: self.script_token.clone(),
            runtime_token: self.runtime_token.clone(),
            created_at: self.created_at,
            updated_at: self.updated_at,
        }
    }
}

/// The current time in whole seconds since the Unix epoch (`as_secs() as
/// i64`), or `None` when the clock stands before the epoch.
pub fn now_ts() -> Option<i64> {
    match crate::clock::unix_seconds() {
        Some(secs) => Some(secs as i64),
        None => None,
    }
}

} // verus!
