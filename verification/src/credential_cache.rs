//! A single-slot, concurrency-safe cache for short-lived proxy credentials.
//!
//! The slot holds at most one credential set and answers validity queries
//! with a proactive refresh margin: a credential is treated as stale once
//! fewer than `CONFIG_REFRESH_BUFFER_SECS` seconds of literal validity
//! remain, giving callers a window to renew before an in-flight use expires.
//! All time is passed in as seconds, so validity can be examined at any
//! simulated instant. The cache wraps the slot in a verified reader-writer
//! lock; the critical section holds only the in-memory read or swap.

use vstd::prelude::*;
use vstd::rwlock::{RwLock, RwLockPredicate};

verus! {

/// Buffer time before credential expiry that triggers refresh (seconds).
pub const CONFIG_REFRESH_BUFFER_SECS: u64 = 30;

/// A proxy configuration handed back to callers: where to connect, the
/// bearer token, and how many seconds of validity remain.
#[derive(Clone, Debug)]
pub struct DeepgramProxyConfig {
    pub proxy_base_url: String,
    pub jwt: String,
    pub expires_in: u64,
}

/// An error surfaced to the command layer, with a short description and
/// optional detail.
#[derive(Clone, Debug)]
pub struct DeepgramProxyConfigError {
    pub error: String,
    pub details: Option<String>,
}

/// The mathematical content of a `DeepgramProxyConfig`.
pub struct ConfigView {
    pub proxy_base_url: Seq<char>,
    pub jwt: Seq<char>,
    pub expires_in: u64,
}

impl View for DeepgramProxyConfig {
    type V = ConfigView;

    open spec fn view(&self) -> ConfigView {
        ConfigView {
            proxy_base_url: self.proxy_base_url@,
            jwt: self.jwt@,
            expires_in: self.expires_in,
        }
    }
}

/// The mathematical content of an optional proxy configuration.
pub open spec fn view_opt_config(o: Option<DeepgramProxyConfig>) -> Option<ConfigView> {
    match o {
        Some(c) => Some(c@),
        None => None,
    }
}

/// One issued short-lived credential set with its validity window.
pub struct CredentialSet {
    pub proxy_base_url: String,
    pub jwt: String,
    pub issued_at: u64,
    pub expires_at: u64,
}

/// The mathematical content of a credential set.
pub struct CredentialSetView {
    pub proxy_base_url: Seq<char>,
    pub jwt: Seq<char>,
    pub issued_at: u64,
    pub expires_at: u64,
}

impl View for CredentialSet {
    type V = CredentialSetView;

    open spec fn view(&self) -> CredentialSetView {
        CredentialSetView {
            proxy_base_url: self.proxy_base_url@,
            jwt: self.jwt@,
            issued_at: self.issued_at,
            expires_at: self.expires_at,
        }
    }
}

impl CredentialSet {
    /// A well-formed credential set: non-empty endpoint and secret, and a
    /// validity window that does not end before it begins.
    pub open spec fn wf(self) -> bool {
        self@.proxy_base_url.len() > 0 && self@.jwt.len() > 0 && self@.issued_at
            <= self@.expires_at
    }
}

/// The single mutable slot: at most one credential set, owned exclusively.
pub struct CredentialSlot {
    entry: Option<CredentialSet>,
}

impl View for CredentialSlot {
    type V = Option<CredentialSetView>;

    closed spec fn view(&self) -> Option<CredentialSetView> {
        match self.entry {
            Some(e) => Some(e@),
            None => None,
        }
    }
}

impl CredentialSlot {
    /// A well-formed slot: whatever credential it holds is well-formed.
    pub open spec fn wf(self) -> bool {
        self@ is Some ==> self@->0.proxy_base_url.len() > 0 && self@->0.jwt.len() > 0
            && self@->0.issued_at <= self@->0.expires_at
    }

    /// What a fetch at instant `now_s` yields: the held credential with its
    /// remaining validity, provided more than the refresh buffer remains.
    pub open spec fn fetch_view(self, now_s: u64) -> Option<ConfigView> {
        match self@ {
            Some(e) => if e.expires_at > now_s && e.expires_at - now_s
                > CONFIG_REFRESH_BUFFER_SECS {
                Some(
                    ConfigView {
                        proxy_base_url: e.proxy_base_url,
                        jwt: e.jwt,
                        expires_in: (e.expires_at - now_s) as u64,
                    },
                )
            } else {
                None
            },
            None => None,
        }
    }

    /// Whether the slot holds a credential still valid at `now_s`, with the
    /// refresh buffer applied.
    pub open spec fn valid_at(self, now_s: u64) -> bool {
        self.fetch_view(now_s) is Some
    }

    /// An empty slot.
    pub fn new() -> (r: Self)
        ensures
            r@ is None,
            r.wf(),
    {
        CredentialSlot { entry: None }
    }

    /// Stores a credential set issued at `now_s` with `expires_in` seconds of
    /// validity, replacing any held entry wholesale. Rejects an empty
    /// endpoint, an empty secret, and a zero ttl, leaving the slot unchanged.
    pub fn store(
        &mut self,
        proxy_base_url: String,
        jwt: String,
        expires_in: u64,
        now_s: u64,
    ) -> (r: Result<(), String>)
        requires
            old(self).wf(),
            now_s + expires_in <= u64::MAX,
        ensures
            final(self).wf(),
            r is Ok <==> proxy_base_url@.len() > 0 && jwt@.len() > 0 && expires_in > 0,
            r is Ok ==> final(self)@ == Some(
                CredentialSetView {
                    proxy_base_url: proxy_base_url@,
                    jwt: jwt@,
                    issued_at: now_s,
                    expires_at: (now_s + expires_in) as u64,
                },
            ),
            r is Err ==> final(self)@ == old(self)@,
            r is Err ==> (proxy_base_url@.len() == 0 && r->Err_0@
                == "Proxy base URL cannot be empty"@) || (proxy_base_url@.len() > 0
                && jwt@.len() == 0 && r->Err_0@ == "JWT cannot be empty"@) || (
            proxy_base_url@.len() > 0 && jwt@.len() > 0 && expires_in == 0 && r->Err_0@
                == "TTL cannot be zero"@),
    {
        if proxy_base_url.as_str().is_empty() {
            return Err("Proxy base URL cannot be empty".to_owned());
        }
        if jwt.as_str().is_empty() {
            return Err("JWT cannot be empty".to_owned());
        }
        if expires_in == 0 {
            return Err("TTL cannot be zero".to_owned());
        }
        let expires_at = now_s + expires_in;
        self.entry = Some(
            CredentialSet { proxy_base_url, jwt, issued_at: now_s, expires_at },
        );
        Ok(())
    }

    /// Returns the held credential at instant `now_s`, or absent once fewer
    /// than `CONFIG_REFRESH_BUFFER_SECS` seconds of validity remain.
    pub fn fetch(&self, now_s: u64) -> (r: Option<DeepgramProxyConfig>)
        ensures
            view_opt_config(r) == self.fetch_view(now_s),
    {
        match &self.entry {
            None => None,
            Some(e) => {
                if e.expires_at > now_s && e.expires_at - now_s > CONFIG_REFRESH_BUFFER_SECS {
                    Some(
                        DeepgramProxyConfig {
                            proxy_base_url: e.proxy_base_url.clone(),
                            jwt: e.jwt.clone(),
                            expires_in: e.expires_at - now_s,
                        },
                    )
                } else {
                    None
                }
            },
        }
    }

    /// A cheap existence check, equivalent to `fetch(now_s) is Some`, that
    /// does not expose the secret.
    pub fn is_valid(&self, now_s: u64) -> (r: bool)
        ensures
            r <==> self.valid_at(now_s),
    {
        match &self.entry {
            None => false,
            Some(e) => e.expires_at > now_s && e.expires_at - now_s > CONFIG_REFRESH_BUFFER_SECS,
        }
    }

    /// Removes any held credential; idempotent, never fails.
    pub fn clear(&mut self)
        ensures
            final(self)@ is None,
            final(self).wf(),
    {
        self.entry = None;
    }
}

/// The invariant every slot stored under the lock satisfies.
pub struct SlotInv;

impl RwLockPredicate<CredentialSlot> for SlotInv {
    open spec fn inv(self, v: CredentialSlot) -> bool {
        v.wf()
    }
}

/// A concurrency-safe single-slot credential cache: the slot behind a
/// verified reader-writer lock. Any number of callers may store, fetch and
/// clear concurrently; each operation reads or replaces the slot atomically,
/// so no reader ever observes a mixture of two stored credential sets.
pub struct CredentialCache {
    lock: RwLock<CredentialSlot, SlotInv>,
}

impl CredentialCache {
    /// A cache holding no credential.
    pub fn new() -> (r: Self) {
        CredentialCache { lock: RwLock::new(CredentialSlot::new(), Ghost(SlotInv)) }
    }

    /// Validates and stores a credential set issued at `now_s`. The result is
    /// a function of the inputs alone: storing succeeds exactly on a
    /// non-empty endpoint, a non-empty secret and a positive ttl.
    pub fn set_deepgram_proxy_config(
        &self,
        proxy_base_url: String,
        jwt: String,
        expires_in: u64,
        now_s: u64,
    ) -> (r: Result<(), String>)
        requires
            now_s + expires_in <= u64::MAX,
        ensures
            r is Ok <==> proxy_base_url@.len() > 0 && jwt@.len() > 0 && expires_in > 0,
            r is Err ==> (proxy_base_url@.len() == 0 && r->Err_0@
                == "Proxy base URL cannot be empty"@) || (proxy_base_url@.len() > 0
                && jwt@.len() == 0 && r->Err_0@ == "JWT cannot be empty"@) || (
            proxy_base_url@.len() > 0 && jwt@.len() > 0 && expires_in == 0 && r->Err_0@
                == "TTL cannot be zero"@),
    {
        let (mut slot, handle) = self.lock.acquire_write();
        let r = slot.store(proxy_base_url, jwt, expires_in, now_s);
        handle.release_write(slot);
        r
    }

    /// Returns the cached configuration when one is held and still valid at
    /// `now_s` with the refresh buffer applied; whatever is returned carries a
    /// non-empty endpoint, a non-empty secret, and more remaining validity
    /// than the refresh buffer.
    pub fn get_deepgram_proxy_config(&self, now_s: u64) -> (r: Option<DeepgramProxyConfig>)
        ensures
            r is Some ==> r->0@.proxy_base_url.len() > 0 && r->0@.jwt.len() > 0 && r->0@.expires_in
                > CONFIG_REFRESH_BUFFER_SECS,
    {
        let handle = self.lock.acquire_read();
        let r = handle.borrow().fetch(now_s);
        handle.release_read();
        r
    }

    /// Checks whether a credential valid at `now_s` is held, without exposing
    /// the secret.
    pub fn has_valid_deepgram_proxy_config(&self, now_s: u64) -> (r: bool) {
        let handle = self.lock.acquire_read();
        let r = handle.borrow().is_valid(now_s);
        handle.release_read();
        r
    }

    /// Removes any cached credential; idempotent, never fails.
    pub fn clear_deepgram_proxy_config(&self) -> (r: Result<(), String>)
        ensures
            r is Ok,
    {
        let (mut slot, handle) = self.lock.acquire_write();
        slot.clear();
        handle.release_write(slot);
        Ok(())
    }

    /// Returns the cached endpoint and secret when still valid at `now_s`;
    /// whatever is returned, both strings are non-empty.
    pub fn get_cached_proxy_config(&self, now_s: u64) -> (r: Option<(String, String)>)
        ensures
            r is Some ==> ({
                let p = r->0;
                p.0@.len() > 0 && p.1@.len() > 0
            }),
    {
        let cfg = self.get_deepgram_proxy_config(now_s);
        match cfg {
            Some(c) => Some((c.proxy_base_url, c.jwt)),
            None => None,
        }
    }

    /// Checks whether a valid credential is cached.
    pub fn has_cached_proxy_config(&self, now_s: u64) -> (r: bool) {
        self.has_valid_deepgram_proxy_config(now_s)
    }
}

/// Law (store then fetch): a slot holding the credential a successful store
/// leaves behind — issued at `now` with ttl `ttl` — yields on an immediate
/// fetch exactly the stored endpoint and secret with the full ttl remaining,
/// provided the ttl exceeds the refresh buffer.
pub proof fn lemma_store_then_fetch(
    slot: CredentialSlot,
    url: Seq<char>,
    jwt: Seq<char>,
    ttl: u64,
    now: u64,
)
    requires
        now + ttl <= u64::MAX,
        CONFIG_REFRESH_BUFFER_SECS < ttl,
        slot@ == Some(
            CredentialSetView {
                proxy_base_url: url,
                jwt: jwt,
                issued_at: now,
                expires_at: (now + ttl) as u64,
            },
        ),
    ensures
        slot.fetch_view(now) == Some(
            ConfigView { proxy_base_url: url, jwt: jwt, expires_in: ttl },
        ),
{
}

/// Law (proactive staleness): once the queried instant is within the refresh
/// buffer of the expiry — at or past issuance plus ttl minus the buffer — a
/// fetch yields absent, although the literal expiry may not have passed.
pub proof fn lemma_refresh_buffer_staleness(
    slot: CredentialSlot,
    ttl: u64,
    now: u64,
    later: u64,
)
    requires
        now + ttl <= u64::MAX,
        slot@ is Some,
        slot@->0.expires_at == (now + ttl) as u64,
        later + CONFIG_REFRESH_BUFFER_SECS >= now + ttl,
    ensures
        slot.fetch_view(later) is None,
{
}

/// Law (clear then fetch): an empty slot — what clear leaves behind — yields
/// absent at every instant, regardless of prior state.
pub proof fn lemma_clear_then_fetch(slot: CredentialSlot, now: u64)
    requires
        slot@ is None,
    ensures
        slot.fetch_view(now) is None,
{
}

/// Law (last writer wins, whole): whatever two credential sets two stores
/// carried, a slot left by the later successful store holds that store's
/// endpoint, secret and window in full — never a mixture of the two.
pub proof fn lemma_store_wholesale(
    slot: CredentialSlot,
    url: Seq<char>,
    jwt: Seq<char>,
    ttl: u64,
    now: u64,
    other: CredentialSetView,
)
    requires
        slot@ == Some(
            CredentialSetView {
                proxy_base_url: url,
                jwt: jwt,
                issued_at: now,
                expires_at: (now + ttl) as u64,
            },
        ),
        other.proxy_base_url != url,
        other.jwt != jwt,
    ensures
        slot@->0.proxy_base_url != other.proxy_base_url,
        slot@->0.jwt != other.jwt,
        slot@->0.proxy_base_url == url && slot@->0.jwt == jwt,
{
}

} // verus!
