use crate::credentials::{expiry_after, Credentials};
use vstd::prelude::*;

verus! {

/// The single credentials record that one client shares between its requests.
///
/// The owner guards it with a reader/writer lock: readers take the token and
/// check expiry, and the one exclusive holder re-checks expiry and replaces the
/// record whole. The record is never changed field by field.
#[derive(Debug)]
pub struct CredentialStore {
    current: Credentials,
}

/// Counts the token exchanges that a run of exclusive sections performs. Section
/// `i` re-checks expiry at instant `checks[i]` and, only when the record has
/// expired by then, installs credentials fetched at that instant with a lifetime
/// of `ttl_secs` seconds.
pub open spec fn exchanges(expires_at: int, checks: Seq<u64>, ttl_secs: u64) -> nat
    decreases checks.len(),
{
    if checks.len() == 0 {
        0
    } else if expires_at < checks[0] {
        1 + exchanges(expiry_after(checks[0] as int, ttl_secs as int), checks.drop_first(), ttl_secs)
    } else {
        exchanges(expires_at, checks.drop_first(), ttl_secs)
    }
}

impl CredentialStore {
    pub closed spec fn current(&self) -> Credentials {
        self.current
    }

    pub fn new(initial: Credentials) -> (s: CredentialStore)
        ensures
            s.current() == initial,
    {
        CredentialStore { current: initial }
    }

    /// A copy of the current access token, for the `Authorization` header.
    pub fn access_token(&self) -> (r: String)
        ensures
            r@ == self.current().access_token@,
    {
        self.current.access_token.clone()
    }

    pub fn expires_at(&self) -> (r: u64)
        ensures
            r == self.current().expires_at,
    {
        self.current.expires_at
    }

    /// Whether a refresh is due at `now`: checked first under shared access, and
    /// again under exclusive access before a fetch, since another holder may have
    /// refreshed in between.
    pub fn needs_refresh(&self, now: u64) -> (r: bool)
        ensures
            r == self.current().expired_at(now as int),
    {
        self.current.is_expired(now)
    }

    /// Swaps in freshly fetched credentials as one value.
    pub fn replace(&mut self, fresh: Credentials)
        ensures
            final(self).current() == fresh,
    {
        self.current = fresh;
    }
}

/// Once a record expires at `expires_at` or later, no exclusive section that
/// re-checks at or before `expires_at` fetches again.
pub proof fn lemma_no_exchange_while_valid(expires_at: int, checks: Seq<u64>, ttl_secs: u64)
    requires
        forall|i: int| 0 <= i < checks.len() ==> checks[i] <= expires_at,
    ensures
        exchanges(expires_at, checks, ttl_secs) == 0,
    decreases checks.len(),
{
    if checks.len() > 0 {
        let rest = checks.drop_first();
        assert forall|i: int| 0 <= i < rest.len() implies rest[i] <= expires_at by {
            assert(rest[i] == checks[i + 1]);
        }
        lemma_no_exchange_while_valid(expires_at, rest, ttl_secs);
    }
}

/// Any number of callers that all saw the record expired and then take exclusive
/// access in turn make one token exchange between them, provided every re-check
/// falls within the lifetime of the token that the first of them fetched.
pub proof fn lemma_single_flight(expires_at: int, checks: Seq<u64>, ttl_secs: u64)
    requires
        checks.len() >= 1,
        expires_at < checks[0],
        forall|i: int|
            0 <= i < checks.len() ==> #[trigger] checks[i] <= expiry_after(
                checks[0] as int,
                ttl_secs as int,
            ),
    ensures
        exchanges(expires_at, checks, ttl_secs) == 1,
{
    let rest = checks.drop_first();
    assert forall|i: int| 0 <= i < rest.len() implies rest[i] <= expiry_after(
        checks[0] as int,
        ttl_secs as int,
    ) by {
        assert(rest[i] == checks[i + 1]);
    }
    lemma_no_exchange_while_valid(expiry_after(checks[0] as int, ttl_secs as int), rest, ttl_secs);
}

/// A refresh that succeeds with a positive lifetime leaves an expiry strictly
/// later than any instant observed before the refresh began.
pub proof fn lemma_freshness(after: CredentialStore, before: u64, now: u64, ttl_secs: u64)
    requires
        before <= now,
        ttl_secs > 0,
        after.current().expires_at == expiry_after(now as int, ttl_secs as int),
    ensures
        after.current().expires_at > before,
{
}

/// When the clock has passed the record's expiry, a refresh is due; the record
/// swapped in by a refresh at that instant is valid then, and its token is the
/// one that the next request carries.
pub proof fn lemma_expiry_triggers_refresh(
    before: CredentialStore,
    after: CredentialStore,
    now: u64,
    ttl_secs: u64,
    fresh: Credentials,
)
    requires
        now > before.current().expires_at,
        fresh.expires_at == expiry_after(now as int, ttl_secs as int),
        after.current() == fresh,
    ensures
        before.current().expired_at(now as int),
        !after.current().expired_at(now as int),
        after.current().access_token@ == fresh.access_token@,
{
}

} // verus!
