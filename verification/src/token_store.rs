//! The in-memory cache in front of the secure credential storage.
//!
//! The cache is consulted first; the system keyring is read only when nothing
//! is cached, and a non-empty token read from it is cached for next time.

use vstd::prelude::*;

use crate::credentials::Credentials;

verus! {

pub struct TokenStore {
    storage: Option<Credentials>,
}

impl View for TokenStore {
    type V = Option<Credentials>;

    closed spec fn view(&self) -> Option<Credentials> {
        self.storage
    }
}

/// What reading the keyring gives the caller and leaves cached: a token with
/// an empty access token counts as none and caches nothing, as does a failed
/// read (`None`).
pub open spec fn accept_spec(cached: Option<Credentials>, retrieved: Option<Credentials>) -> (
    Option<Credentials>,
    Option<Credentials>,
) {
    match retrieved {
        Some(c) => if c.access_token@.len() == 0 {
            (None, cached)
        } else {
            (Some(c), Some(c))
        },
        None => (None, cached),
    }
}

impl TokenStore {
    pub fn new() -> (r: TokenStore)
        ensures
            r@ is None,
    {
        TokenStore { storage: None }
    }

    /// The cached credentials, if any.
    pub fn get_cached_blocking(&self) -> (r: Option<Credentials>)
        ensures
            r == self@,
    {
        match &self.storage {
            Some(c) => Some(c.duplicate()),
            None => None,
        }
    }

    /// Whether the keyring has to be read: only when nothing is cached.
    pub fn needs_retrieval(&self) -> (r: bool)
        ensures
            r == self@ is None,
    {
        self.storage.is_none()
    }

    /// Take in the result of reading the keyring (`None` when the read failed).
    pub fn accept_retrieved(&mut self, retrieved: Option<Credentials>) -> (r: Option<Credentials>)
        ensures
            (r, final(self)@) == accept_spec(old(self)@, retrieved),
    {
        match retrieved {
            Some(token) => {
                if token.access_token.as_str().unicode_len() == 0 {
                    None
                } else {
                    let copy = token.duplicate();
                    self.storage = Some(token);
                    Some(copy)
                }
            },
            None => None,
        }
    }

    /// Cache new credentials (after handing them to the keyring).
    pub fn set(&mut self, creds: Credentials)
        ensures
            final(self)@ == Some(creds),
    {
        self.storage = Some(creds);
    }

    /// Forget the cached credentials (after clearing the keyring).
    pub fn clear(&mut self)
        ensures
            final(self)@ is None,
    {
        self.storage = None;
    }
}

/// What is stored is what the cache gives back, and while something is cached
/// the keyring is not read.
pub proof fn law_cache_gives_back_what_was_set(creds: Credentials)
    ensures
        accept_spec(Some(creds), None) == (None::<Credentials>, Some(creds)),
        creds.access_token@.len() > 0 ==> accept_spec(None, Some(creds)) == (
            Some(creds),
            Some(creds),
        ),
{
}

/// An empty token from the keyring is treated as no token and changes nothing.
pub proof fn law_empty_token_is_no_token(cached: Option<Credentials>, token: Credentials)
    requires
        token.access_token@.len() == 0,
    ensures
        accept_spec(cached, Some(token)) == (None::<Credentials>, cached),
{
}

/// How many times the keyring is searched before it counts as empty (it may
/// still be unlocking right after login).
pub const MAX_KEYRING_RETRIES: u32 = 3;

/// The pause between two searches of an empty keyring, in milliseconds.
pub const KEYRING_RETRY_DELAY_MS: u64 = 200;

/// What follows a search of the keyring.
#[derive(Clone, Copy, Debug, PartialEq, Eq, Structural)]
pub enum KeyringSearchStep {
    /// Read the credentials from the first item found.
    ReadFirstItem,
    /// Wait, then search again.
    RetryAfterDelay,
    /// Give up: the keyring is empty.
    GiveUp,
}

/// The step after search number `attempt` (from 0) found an item or not: a
/// found item is read; an empty keyring is searched again until the last
/// attempt, after which it counts as empty.
pub fn after_keyring_search(attempt: u32, found_item: bool) -> (r: KeyringSearchStep)
    requires
        attempt < MAX_KEYRING_RETRIES,
    ensures
        r == if found_item {
            KeyringSearchStep::ReadFirstItem
        } else if attempt + 1 < MAX_KEYRING_RETRIES {
            KeyringSearchStep::RetryAfterDelay
        } else {
            KeyringSearchStep::GiveUp
        },
{
    if found_item {
        KeyringSearchStep::ReadFirstItem
    } else if attempt < MAX_KEYRING_RETRIES - 1 {
        KeyringSearchStep::RetryAfterDelay
    } else {
        KeyringSearchStep::GiveUp
    }
}

} // verus!
