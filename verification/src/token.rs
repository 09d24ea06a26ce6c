//! The credential cache behind outbound API calls.
//!
//! The cache holds zero or one bearer credential with its expiry instant
//! (seconds on the caller's clock). A credential that has not expired is
//! served as is; an absent or expired one obliges the caller to perform one
//! credential-grant request and store what it parsed from the response. The
//! embedding application keeps the cache behind one lock held across the
//! whole operation, so concurrent misses collapse into a single refresh.

use crate::payload::{access_token_field_of, expires_in_field_of, extract_access_token,
    extract_expires_in};
use vstd::prelude::*;

verus! {

/// The credential lifetime assumed when a grant response carries no
/// `expires_in` field, in seconds.
pub const DEFAULT_TOKEN_LIFETIME_SECS: u64 = 14400;

/// A bearer credential and the instant it stops being valid.
pub struct CachedCredential {
    pub access_token: String,
    pub expires_at: u64,
}

/// The mathematical content of a credential: its token text and expiry.
pub struct CredentialModel {
    pub token: Seq<char>,
    pub expires_at: u64,
}

impl View for CachedCredential {
    type V = CredentialModel;

    open spec fn view(&self) -> CredentialModel {
        CredentialModel { token: self.access_token@, expires_at: self.expires_at }
    }
}

/// Why a credential could not be taken from a grant response.
#[derive(Debug, PartialEq, Eq, Structural)]
pub enum CredentialError {
    /// The response was not valid JSON or carried no `access_token` string.
    MissingAccessToken,
}

/// The instant `lifetime` seconds after `now`, capped at the clock's
/// largest value.
pub open spec fn expiry_time(now: u64, lifetime: u64) -> u64 {
    if now + lifetime > u64::MAX {
        u64::MAX
    } else {
        (now + lifetime) as u64
    }
}

/// The lifetime a grant response states, or the fallback when it states
/// none.
pub open spec fn effective_lifetime(expires_in: Option<u64>) -> u64 {
    match expires_in {
        Some(v) => v,
        None => DEFAULT_TOKEN_LIFETIME_SECS,
    }
}

/// The credential that a grant response `body` read at instant `now` yields:
/// its `access_token` verbatim, expiring `expires_in` (or the fallback
/// lifetime) seconds from `now`; an error when no token can be read.
pub open spec fn credential_of_response(body: Seq<char>, now: u64) -> Result<
    CredentialModel,
    CredentialError,
> {
    match access_token_field_of(body) {
        Some(token) => Ok(
            CredentialModel {
                token,
                expires_at: expiry_time(now, effective_lifetime(expires_in_field_of(body))),
            },
        ),
        None => Err(CredentialError::MissingAccessToken),
    }
}

/// Parses a credential-grant response received at instant `now`. A missing
/// `access_token` is this call's error — never a cached placeholder; a
/// missing `expires_in` falls back to the fixed default lifetime.
pub fn credential_from_response(body: &str, now: u64) -> (r: Result<
    CachedCredential,
    CredentialError,
>)
    ensures
        r matches Ok(c) ==> credential_of_response(body@, now) == Ok::<
            CredentialModel,
            CredentialError,
        >(c@),
        r is Err <==> credential_of_response(body@, now) is Err,
{
    let access_token = match extract_access_token(body) {
        Some(t) => t,
        None => return Err(CredentialError::MissingAccessToken),
    };
    let lifetime = match extract_expires_in(body) {
        Some(v) => v,
        None => DEFAULT_TOKEN_LIFETIME_SECS,
    };
    let expires_at = if lifetime > u64::MAX - now {
        u64::MAX
    } else {
        now + lifetime
    };
    Ok(CachedCredential { access_token, expires_at })
}

/// The process-wide cache of the one bearer credential; created empty,
/// replaced wholesale on refresh, never partially mutated.
pub struct TokenCache {
    credential: Option<CachedCredential>,
}

impl View for TokenCache {
    type V = Option<CredentialModel>;

    closed spec fn view(&self) -> Option<CredentialModel> {
        match self.credential {
            Some(c) => Some(c@),
            None => None,
        }
    }
}

impl TokenCache {
    /// The token the cache serves at instant `now`: the held credential's
    /// token when one is held and has not expired, nothing otherwise.
    pub open spec fn served_token(self, now: u64) -> Option<Seq<char>> {
        match self@ {
            Some(c) => if now < c.expires_at {
                Some(c.token)
            } else {
                None
            },
            None => None,
        }
    }

    /// An empty cache: the first credential is fetched lazily on first need.
    pub fn new() -> (c: TokenCache)
        ensures
            c@ is None,
    {
        TokenCache { credential: None }
    }

    /// An immutable copy of the cached token, when the held credential has
    /// not expired at instant `now`; `None` obliges the caller to refresh.
    /// No network call is involved either way.
    pub fn cached_token(&self, now: u64) -> (r: Option<String>)
        ensures
            r is Some <==> self.served_token(now) is Some,
            r matches Some(t) ==> self.served_token(now) == Some(t@),
    {
        match &self.credential {
            Some(c) => {
                if now < c.expires_at {
                    Some(c.access_token.clone())
                } else {
                    None
                }
            },
            None => None,
        }
    }

    /// Replaces whatever was held with the freshly fetched credential.
    pub fn store(&mut self, credential: CachedCredential)
        ensures
            final(self)@ == Some(credential@),
    {
        self.credential = Some(credential);
    }

    /// Parses a grant response received at instant `now` and stores the
    /// credential it yields, handing back its token; a response without a
    /// token is the call's error and leaves the cache unchanged — an invalid
    /// value is never cached.
    pub fn refresh_from_response(&mut self, body: &str, now: u64) -> (r: Result<
        String,
        CredentialError,
    >)
        ensures
            r matches Ok(t) ==> credential_of_response(body@, now) matches Ok(c) && c.token == t@
                && final(self)@ == Some(c),
            r is Err ==> credential_of_response(body@, now) is Err && final(self)@ == old(self)@,
    {
        match credential_from_response(body, now) {
            Ok(credential) => {
                let token = credential.access_token.clone();
                self.store(credential);
                Ok(token)
            },
            Err(e) => Err(e),
        }
    }
}

/// A cached credential whose expiry lies in the future is served as is: the
/// cache answers at instant `now` with exactly the held token, so a caller
/// that refreshes only on a miss issues no network call.
pub proof fn lemma_fresh_credential_served(cache: TokenCache, now: u64)
    requires
        cache@ matches Some(c) && now < c.expires_at,
    ensures
        cache.served_token(now) == Some(cache@->0.token),
{
}

/// An absent or expired credential is never served: the cache answers with
/// nothing, so the caller performs its one refresh; once the refreshed
/// credential is stored, every instant before its expiry is served from the
/// cache again (by `lemma_fresh_credential_served`) and needs no further
/// call.
pub proof fn lemma_stale_credential_not_served(cache: TokenCache, now: u64)
    requires
        cache@ is None || (cache@ matches Some(c) && now >= c.expires_at),
    ensures
        cache.served_token(now) is None,
{
}

/// One refresh suffices until expiry: when a cache misses at `now` and the
/// grant response read at `now` yields a credential, a cache holding that
/// credential — what `refresh_from_response` leaves behind — serves every
/// later instant before the credential's expiry, so no further grant request
/// is made.
pub proof fn lemma_one_refresh_serves_until_expiry(
    stale: TokenCache,
    refreshed: TokenCache,
    body: Seq<char>,
    now: u64,
    later: u64,
)
    requires
        stale.served_token(now) is None,
        credential_of_response(body, now) is Ok,
        refreshed@ == Some(credential_of_response(body, now)->Ok_0),
        later < credential_of_response(body, now)->Ok_0.expires_at,
    ensures
        refreshed.served_token(later) == Some(credential_of_response(body, now)->Ok_0.token),
{
}

} // verus!
