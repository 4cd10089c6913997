//! The per-provider token lifecycle: one live bearer token, replaced on each
//! successful refresh, scheduled from the token's own expiry. Reading the
//! current token never involves the network; the refresh loop runs beside
//! request traffic and hands its outcomes to this module's transitions.
//!
//! All instants are milliseconds since the epoch, as the exchange endpoint
//! reports them.
use vstd::prelude::*;

use crate::LlmError;

verus! {

/// Sleep before the first refresh when the exchanged expiry is not in the
/// future (an invalid clock delta).
pub const INITIAL_FALLBACK_DELAY_MS: u64 = 60_000;

/// Sleep after a successful refresh whose expiry is not in the future.
pub const REFRESH_FALLBACK_DELAY_MS: u64 = 5_000;

/// Sleep before retrying after a failed refresh.
pub const RETRY_DELAY_MS: u64 = 5_000;

/// What a successful token exchange yields.
#[derive(Clone, Debug, PartialEq, Eq)]
pub struct AuthToken {
    pub access_token: String,
    pub expires_at_ms: i64,
}

/// How long to sleep until the moment `expires_at_ms`, with a fallback when
/// that moment is not in the future. No refresh is scheduled before the
/// expiry; one is scheduled exactly at it.
pub open spec fn spec_refresh_delay(expires_at_ms: i64, now_ms: i64, fallback_ms: u64) -> u64 {
    if now_ms < expires_at_ms {
        (expires_at_ms - now_ms) as u64
    } else {
        fallback_ms
    }
}

/// Holds the one live bearer token of a provider and schedules its refreshes.
#[derive(Clone, Debug)]
pub struct TokenInterceptor {
    token: String,
    expires_at_ms: i64,
}

impl TokenInterceptor {
    /// The token currently served to request traffic.
    pub closed spec fn token_spec(&self) -> Seq<char> {
        self.token@
    }

    /// When the current token expires.
    pub closed spec fn expires_spec(&self) -> i64 {
        self.expires_at_ms
    }

    /// The manager only ever holds a token it has itself exchanged, and a
    /// valid exchange never yields an empty token.
    pub open spec fn wf(&self) -> bool {
        self.token_spec().len() > 0
    }

    /// Adopts the initial exchange. An exchange that produced an empty
    /// token is malformed and is refused, so a constructed manager always
    /// serves a non-empty token.
    pub fn new(initial: AuthToken) -> (r: Result<TokenInterceptor, LlmError>)
        ensures
            initial.access_token@.len() > 0 ==> (r matches Ok(m) && m.wf() && m.token_spec()
                == initial.access_token@ && m.expires_spec() == initial.expires_at_ms),
            initial.access_token@.len() == 0 ==> (r matches Err(e) && e matches LlmError::Auth(
                d,
            ) && d@ == "empty access token"@),
    {
        if initial.access_token.as_str().is_empty() {
            Err(LlmError::Auth("empty access token".to_owned()))
        } else {
            Ok(TokenInterceptor {
                token: initial.access_token,
                expires_at_ms: initial.expires_at_ms,
            })
        }
    }

    /// The current token: a plain read of the last known-good value, never
    /// blocking and never failing, non-empty for any constructed manager.
    pub fn get_token(&self) -> (t: String)
        ensures
            t@ == self.token_spec(),
            self.wf() ==> t@.len() > 0,
    {
        self.token.clone()
    }

    /// How long to sleep before the first refresh attempt: until the
    /// exchanged expiry, or one minute when that expiry is not in the
    /// future. No refresh attempt happens earlier; one is due exactly then.
    pub fn initial_refresh_delay_ms(&self, now_ms: i64) -> (delay: u64)
        requires
            0 <= now_ms,
        ensures
            delay == spec_refresh_delay(self.expires_spec(), now_ms, INITIAL_FALLBACK_DELAY_MS),
    {
        if now_ms < self.expires_at_ms {
            (self.expires_at_ms - now_ms) as u64
        } else {
            INITIAL_FALLBACK_DELAY_MS
        }
    }

    /// Adopts a freshly exchanged token and schedules the next refresh at
    /// the new expiry (five seconds out when the expiry is not in the
    /// future).
    pub fn on_refresh_success(&mut self, fresh: AuthToken, now_ms: i64) -> (delay: u64)
        requires
            0 <= now_ms,
            fresh.access_token@.len() > 0,
        ensures
            final(self).wf(),
            final(self).token_spec() == fresh.access_token@,
            final(self).expires_spec() == fresh.expires_at_ms,
            delay == spec_refresh_delay(fresh.expires_at_ms, now_ms, REFRESH_FALLBACK_DELAY_MS),
    {
        self.token = fresh.access_token;
        self.expires_at_ms = fresh.expires_at_ms;
        if now_ms < self.expires_at_ms {
            (self.expires_at_ms - now_ms) as u64
        } else {
            REFRESH_FALLBACK_DELAY_MS
        }
    }

    /// A failed refresh leaves the held token untouched — readers keep
    /// getting the previous value — and schedules another attempt in five
    /// seconds.
    pub fn on_refresh_failure(&mut self) -> (delay: u64)
        ensures
            *final(self) == *old(self),
            delay == RETRY_DELAY_MS,
    {
        RETRY_DELAY_MS
    }
}

} // verus!
