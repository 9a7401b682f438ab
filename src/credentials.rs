use crate::error::ClientError;
use vstd::prelude::*;

verus! {

/// Milliseconds in one second: instants are counted in milliseconds.
pub const MILLIS_PER_SEC: u64 = 1000;

/// The instant at which a token issued at `now` (milliseconds) with a lifetime of
/// `ttl_secs` seconds stops being valid.
pub open spec fn expiry_after(now: int, ttl_secs: int) -> int {
    now + ttl_secs * MILLIS_PER_SEC
}

/// An access token together with the instant after which it must not be used.
///
/// Instants are milliseconds since an origin that the owner of the credentials
/// chooses once and keeps.
#[derive(Debug)]
pub struct Credentials {
    pub access_token: String,
    pub expires_at: u64,
}

impl Credentials {
    /// The token has expired when its expiry instant lies strictly before `now`.
    pub open spec fn expired_at(&self, now: int) -> bool {
        self.expires_at < now
    }

    pub fn is_expired(&self, now: u64) -> (r: bool)
        ensures
            r == self.expired_at(now as int),
    {
        self.expires_at < now
    }

    /// Credentials from a token exchange answered at instant `now`, with the
    /// lifetime in seconds that the server declared, if it declared one.
    pub fn from_token_response(access_token: String, expires_in_secs: Option<u64>, now: u64) -> (r:
        Result<Credentials, ClientError>)
        ensures
            match expires_in_secs {
                None => r matches Err(ClientError::MissingExpiry),
                Some(ttl) => if expiry_after(now as int, ttl as int) <= u64::MAX {
                    r matches Ok(c) && c.access_token@ == access_token@ && c.expires_at
                        == expiry_after(now as int, ttl as int)
                } else {
                    r matches Err(ClientError::ExpiryOverflow)
                },
            },
    {
        match expires_in_secs {
            None => Err(ClientError::MissingExpiry),
            Some(ttl) => {
                match ttl.checked_mul(MILLIS_PER_SEC) {
                    None => {
                        assert(expiry_after(now as int, ttl as int) > u64::MAX) by (nonlinear_arith)
                            requires
                                ttl as int * 1000 > u64::MAX,
                        ;
                        Err(ClientError::ExpiryOverflow)
                    },
                    Some(ms) => match now.checked_add(ms) {
                        None => Err(ClientError::ExpiryOverflow),
                        Some(expires_at) => Ok(Credentials { access_token, expires_at }),
                    },
                }
            },
        }
    }
}

} // verus!
