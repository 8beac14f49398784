//! The Homebridge session: authentication tokens with proactive renewal,
//! the shared catalogue cache with its stale fallback, and the key under
//! which both are kept for one server and one set of credentials.
//!
//! Instants are nanoseconds on a monotonic clock that the caller reads;
//! wall-clock times are milliseconds since the Unix epoch.
use std::collections::HashMap;
use std::collections::hash_map::DefaultHasher;
use std::hash::Hasher;
use std::time::{Duration, SystemTime};
use vstd::prelude::*;
use vstd::std_specs::hash::group_hash_axioms;
use vstd::std_specs::hash::DefaultHasherAdditionalSpecFns;
use crate::models::{
    AccessoryService, AccessoryServiceView, AuthenticationStatus, AuthenticationStatusView,
    Catalog, CatalogView, CatalogServiceView, GlobalSettings,
};
use crate::text::{concat, owned, same_text};

verus! {

broadcast use group_hash_axioms;

// ---------------------------------------------------------------------------
// Tokens.

/// The token part of Homebridge's reply to a login.
#[derive(Debug)]
pub struct TokenResponse {
    pub access_token: String,
    pub token_type: String,
    pub expires_in: u64,
}

/// The token type when Homebridge names none.
pub fn default_token_type() -> (r: String)
    ensures
        r@ == "Bearer"@,
{
    owned("Bearer")
}

/// The token lifetime in seconds when Homebridge names none.
pub fn default_expires_in() -> (r: u64)
    ensures
        r == 3600,
{
    3_600
}

/// A token with the times at which it expires and at which it is renewed.
#[derive(Debug)]
pub struct CachedToken {
    pub access_token: String,
    pub token_type: String,
    /// Monotonic instant, in nanoseconds, at which the token expires.
    pub expires_at_ns: u128,
    /// Monotonic instant, in nanoseconds, from which the token is renewed.
    pub refresh_at_ns: u128,
    pub authentication: String,
    pub authenticated_at_epoch_ms: u64,
    pub expires_at_epoch_ms: u64,
    pub refresh_at_epoch_ms: u64,
}

/// The view of a `CachedToken`.
pub struct CachedTokenView {
    pub access_token: Seq<char>,
    pub token_type: Seq<char>,
    pub expires_at_ns: u128,
    pub refresh_at_ns: u128,
    pub authentication: Seq<char>,
    pub authenticated_at_epoch_ms: u64,
    pub expires_at_epoch_ms: u64,
    pub refresh_at_epoch_ms: u64,
}

impl View for CachedToken {
    type V = CachedTokenView;

    open spec fn view(&self) -> CachedTokenView {
        CachedTokenView {
            access_token: self.access_token@,
            token_type: self.token_type@,
            expires_at_ns: self.expires_at_ns,
            refresh_at_ns: self.refresh_at_ns,
            authentication: self.authentication@,
            authenticated_at_epoch_ms: self.authenticated_at_epoch_ms,
            expires_at_epoch_ms: self.expires_at_epoch_ms,
            refresh_at_epoch_ms: self.refresh_at_epoch_ms,
        }
    }
}

/// `a - b`, or 0 when `b > a` (`u64::saturating_sub`).
pub open spec fn sat_sub(a: int, b: int) -> int {
    if a >= b {
        a - b
    } else {
        0
    }
}

/// `a + b`, or `u64::MAX` when it does not fit (`u64::saturating_add`).
pub open spec fn sat_add(a: int, b: int) -> int {
    if a + b > u64::MAX {
        u64::MAX as int
    } else {
        a + b
    }
}

/// `a * b`, or `u64::MAX` when it does not fit (`u64::saturating_mul`).
pub open spec fn sat_mul(a: int, b: int) -> int {
    if a * b > u64::MAX {
        u64::MAX as int
    } else {
        a * b
    }
}

/// The token lifetime in seconds the plugin works with: at least 30.
pub open spec fn token_lifetime(expires_in: int) -> int {
    if expires_in < 30 {
        30
    } else {
        expires_in
    }
}

/// The renewal margin in seconds: a tenth of the lifetime within 30..=600,
/// and less than the lifetime.
pub open spec fn renewal_margin(lifetime: int) -> int {
    let tenth = lifetime / 10;
    let b = if tenth < 30 {
        30
    } else if tenth > 600 {
        600
    } else {
        tenth
    };
    if b > lifetime - 1 {
        lifetime - 1
    } else {
        b
    }
}

/// The seconds after sign-in at which the token is renewed: at least 1.
pub open spec fn renewal_delay(lifetime: int) -> int {
    let d = sat_sub(lifetime, renewal_margin(lifetime));
    if d < 1 {
        1
    } else {
        d
    }
}

/// The token a sign-in at monotonic instant `now_ns` and wall-clock time
/// `now_epoch` yields.
pub open spec fn token_from(
    r: TokenResponse,
    authentication: Seq<char>,
    now_ns: int,
    now_epoch: int,
) -> CachedTokenView {
    let e = token_lifetime(r.expires_in as int);
    let d = renewal_delay(e);
    CachedTokenView {
        access_token: r.access_token@,
        token_type: r.token_type@,
        expires_at_ns: (now_ns + e * 1_000_000_000) as u128,
        refresh_at_ns: (now_ns + d * 1_000_000_000) as u128,
        authentication,
        authenticated_at_epoch_ms: now_epoch as u64,
        expires_at_epoch_ms: sat_add(now_epoch, sat_mul(e, 1000)) as u64,
        refresh_at_epoch_ms: sat_add(now_epoch, sat_mul(d, 1000)) as u64,
    }
}

/// `a * 1000`, or `u64::MAX` when it does not fit.
fn saturating_thousand_times(a: u64) -> (r: u64)
    ensures
        r == sat_mul(a as int, 1000),
{
    if a > u64::MAX / 1000 {
        u64::MAX
    } else {
        a * 1000
    }
}

/// Builds the cached token for a sign-in at `now_ns` (monotonic) and
/// `now_epoch` (wall clock). The expiry instant must fit the clock.
pub fn cached_token(
    response: TokenResponse,
    authentication: &str,
    now_ns: u128,
    now_epoch: u64,
) -> (t: CachedToken)
    requires
        now_ns + token_lifetime(response.expires_in as int) * 1_000_000_000 <= u128::MAX,
    ensures
        t@ == token_from(response, authentication@, now_ns as int, now_epoch as int),
{
    let expires_in: u64 = if response.expires_in < 30 {
        30
    } else {
        response.expires_in
    };
    let tenth = expires_in / 10;
    let mut refresh_buffer: u64 = if tenth < 30 {
        30
    } else if tenth > 600 {
        600
    } else {
        tenth
    };
    let one_less = expires_in - 1;
    if refresh_buffer > one_less {
        refresh_buffer = one_less;
    }
    let mut refresh_in: u64 = expires_in - refresh_buffer;
    if refresh_in < 1 {
        refresh_in = 1;
    }
    let expires_ms = saturating_thousand_times(expires_in);
    let refresh_ms = saturating_thousand_times(refresh_in);
    CachedToken {
        access_token: response.access_token,
        token_type: response.token_type,
        expires_at_ns: now_ns + (expires_in as u128) * 1_000_000_000,
        refresh_at_ns: now_ns + (refresh_in as u128) * 1_000_000_000,
        authentication: owned(authentication),
        authenticated_at_epoch_ms: now_epoch,
        expires_at_epoch_ms: now_epoch.saturating_add(expires_ms),
        refresh_at_epoch_ms: now_epoch.saturating_add(refresh_ms),
    }
}

/// Tokens are renewed after sign-in and before they expire.
pub proof fn law_token_renewed_before_expiry(
    r: TokenResponse,
    authentication: Seq<char>,
    now_ns: int,
    now_epoch: int,
)
    requires
        0 <= now_ns,
        now_ns + token_lifetime(r.expires_in as int) * 1_000_000_000 <= u128::MAX,
    ensures
        now_ns < token_from(r, authentication, now_ns, now_epoch).refresh_at_ns,
        token_from(r, authentication, now_ns, now_epoch).refresh_at_ns < token_from(
            r,
            authentication,
            now_ns,
            now_epoch,
        ).expires_at_ns,
{
}

/// The whole seconds in `ns` nanoseconds (`Duration::as_secs`), at most
/// `u64::MAX`.
pub open spec fn whole_seconds(ns: int) -> int {
    let s = ns / 1_000_000_000;
    if s > u64::MAX {
        u64::MAX as int
    } else {
        s
    }
}

/// The whole seconds in `ns` nanoseconds.
fn seconds_of(ns: u128) -> (r: u64)
    ensures
        r == whole_seconds(ns as int),
{
    let s = ns / 1_000_000_000;
    if s > u64::MAX as u128 {
        u64::MAX
    } else {
        s as u64
    }
}

/// Whole seconds from `now_ns` until `expires_at_ns`, or 0 once it has
/// passed.
pub open spec fn seconds_left(expires_at_ns: int, now_ns: int) -> int {
    if expires_at_ns >= now_ns {
        whole_seconds(expires_at_ns - now_ns)
    } else {
        0
    }
}

impl CachedToken {
    /// The authentication status at monotonic instant `now_ns`.
    pub fn status(&self, now_ns: u128) -> (s: AuthenticationStatus)
        ensures
            s@ == (AuthenticationStatusView {
                method: self.authentication@,
                authenticated_at_epoch_ms: self.authenticated_at_epoch_ms,
                expires_at_epoch_ms: self.expires_at_epoch_ms,
                refresh_at_epoch_ms: self.refresh_at_epoch_ms,
                remaining_seconds: seconds_left(self.expires_at_ns as int, now_ns as int) as u64,
            }),
    {
        let remaining = if self.expires_at_ns >= now_ns {
            seconds_of(self.expires_at_ns - now_ns)
        } else {
            0
        };
        AuthenticationStatus {
            method: self.authentication.clone(),
            authenticated_at_epoch_ms: self.authenticated_at_epoch_ms,
            expires_at_epoch_ms: self.expires_at_epoch_ms,
            refresh_at_epoch_ms: self.refresh_at_epoch_ms,
            remaining_seconds: remaining,
        }
    }

    /// A copy with the same view.
    pub fn duplicate(&self) -> (r: CachedToken)
        ensures
            r@ == self@,
    {
        CachedToken {
            access_token: self.access_token.clone(),
            token_type: self.token_type.clone(),
            expires_at_ns: self.expires_at_ns,
            refresh_at_ns: self.refresh_at_ns,
            authentication: self.authentication.clone(),
            authenticated_at_epoch_ms: self.authenticated_at_epoch_ms,
            expires_at_epoch_ms: self.expires_at_epoch_ms,
            refresh_at_epoch_ms: self.refresh_at_epoch_ms,
        }
    }
}

// ---------------------------------------------------------------------------
// The wall clock.

#[verifier::external_type_specification]
#[verifier::external_body]
pub struct ExSystemTime(SystemTime);

/// Reads the wall clock (`SystemTime::now`). Nothing is stated of the
/// reading: it depends on the machine's clock.
#[verifier::external_body]
fn system_now() -> SystemTime {
    SystemTime::now()
}

/// The time from the Unix epoch to `t`, or `None` when `t` is before it
/// (`SystemTime::duration_since` with `UNIX_EPOCH`). Nothing is stated of
/// the duration: it depends on the clock.
#[verifier::external_body]
fn since_unix_epoch(t: &SystemTime) -> Option<Duration> {
    match t.duration_since(std::time::UNIX_EPOCH) {
        Ok(d) => Some(d),
        Err(_) => None,
    }
}

/// The whole milliseconds of `d` (`Duration::as_millis`). Nothing is
/// stated: a `Duration` is opaque here, and its only source is the clock.
#[verifier::external_body]
fn whole_millis(d: &Duration) -> u128 {
    d.as_millis()
}

/// Milliseconds since the epoch as a `u64`: 0 for a clock before the epoch
/// and `u64::MAX` for one beyond what fits.
pub fn epoch_ms_from(elapsed: Option<u128>) -> (r: u64)
    ensures
        r == match elapsed {
            None => 0,
            Some(ms) => if ms > u64::MAX {
                u64::MAX as int
            } else {
                ms as int
            },
        },
{
    match elapsed {
        None => 0,
        Some(ms) => if ms > u64::MAX as u128 {
            u64::MAX
        } else {
            ms as u64
        },
    }
}

/// The wall-clock time in milliseconds since the Unix epoch.
pub fn now_epoch_ms() -> (r: u64) {
    let now = system_now();
    let elapsed = match since_unix_epoch(&now) {
        Some(d) => Some(whole_millis(&d)),
        None => None,
    };
    epoch_ms_from(elapsed)
}

// ---------------------------------------------------------------------------
// The credential key.

/// The bytes that hashing `s` as a `str` feeds the hasher: its UTF-8
/// encoding, then the byte 0xff.
pub open spec fn hashed_str(s: Seq<char>) -> Seq<Seq<u8>> {
    seq![vstd::utf8::encode_utf8(s), seq![0xffu8]]
}

/// The key under which tokens and catalogues are kept for one Homebridge
/// address and one set of credentials: the default hash of the address,
/// the user name and the password, each hashed as a `str`.
pub fn credential_key(base_url: &str, settings: &GlobalSettings) -> (r: u64)
    ensures
        r == DefaultHasher::spec_finish(
            hashed_str(base_url@) + hashed_str(settings.username@) + hashed_str(
                settings.password@,
            ),
        ),
{
    let mut hasher = DefaultHasher::new();
    let terminator: [u8; 1] = [0xff];
    hasher.write(base_url.as_bytes());
    hasher.write(terminator.as_slice());
    hasher.write(settings.username.as_str().as_bytes());
    hasher.write(terminator.as_slice());
    hasher.write(settings.password.as_str().as_bytes());
    hasher.write(terminator.as_slice());
    assert(terminator@ =~= seq![0xffu8]);
    assert(hasher@ =~= hashed_str(base_url@) + hashed_str(settings.username@) + hashed_str(
        settings.password@,
    ));
    hasher.finish()
}

// ---------------------------------------------------------------------------
// The catalogue cache.

/// A catalogue and the monotonic instant at which it was fetched.
#[derive(Debug)]
pub struct CachedCatalog {
    pub catalog: Catalog,
    pub fetched_at_ns: u128,
}

/// The view of a `CachedCatalog`.
pub struct CachedCatalogView {
    pub catalog: CatalogView,
    pub fetched_at_ns: u128,
}

impl View for CachedCatalog {
    type V = CachedCatalogView;

    open spec fn view(&self) -> CachedCatalogView {
        CachedCatalogView { catalog: self.catalog@, fetched_at_ns: self.fetched_at_ns }
    }
}

/// A cached catalogue as it is served at `now_ns` / `now_epoch`: marked
/// cached, with its age, staleness, warning and the token's remaining time.
pub open spec fn served(
    c: CachedCatalogView,
    stale: bool,
    warning: Option<Seq<char>>,
    now_ns: int,
    now_epoch: int,
) -> CatalogView {
    CatalogView {
        cache_age_seconds: whole_seconds(sat_sub(now_ns, c.fetched_at_ns as int)) as u64,
        cached: true,
        stale,
        warning,
        authentication_status: AuthenticationStatusView {
            remaining_seconds: (sat_sub(
                c.catalog.authentication_status.expires_at_epoch_ms as int,
                now_epoch,
            ) / 1000) as u64,
            ..c.catalog.authentication_status
        },
        ..c.catalog
    }
}

/// Serves a cached catalogue at `now_ns` / `now_epoch`.
pub fn decorate_cached_catalog(
    cached: CachedCatalog,
    stale: bool,
    warning: Option<String>,
    now_ns: u128,
    now_epoch: u64,
) -> (c: Catalog)
    ensures
        c@ == served(cached@, stale, crate::models::opt_text(warning), now_ns as int, now_epoch as int),
{
    let fetched_at_ns = cached.fetched_at_ns;
    let mut catalog = cached.catalog;
    catalog.cache_age_seconds = seconds_of(now_ns.saturating_sub(fetched_at_ns));
    catalog.cached = true;
    catalog.stale = stale;
    catalog.warning = warning;
    catalog.authentication_status.remaining_seconds = catalog.authentication_status.expires_at_epoch_ms.saturating_sub(
        now_epoch,
    ) / 1000;
    catalog
}

/// The tokens and catalogues the plugin keeps, per credential key.
#[derive(Debug)]
pub struct HomebridgeClient {
    tokens: HashMap<u64, CachedToken>,
    catalogs: HashMap<u64, CachedCatalog>,
}

/// The catalogue the cache serves without refreshing: one fetched at most
/// `ttl_seconds` before `now_ns`.
pub open spec fn fresh_catalog_of(
    catalogs: Map<u64, CachedCatalogView>,
    key: u64,
    ttl_seconds: int,
    now_ns: int,
    now_epoch: int,
) -> Option<CatalogView> {
    if catalogs.contains_key(key) && sat_sub(now_ns, catalogs[key].fetched_at_ns as int)
        <= ttl_seconds * 1_000_000_000 {
        Some(served(catalogs[key], false, None, now_ns, now_epoch))
    } else {
        None
    }
}

/// The token the cache reuses at `now_ns`: one not yet due for renewal.
pub open spec fn reusable_token_of(
    tokens: Map<u64, CachedTokenView>,
    key: u64,
    now_ns: int,
) -> Option<CachedTokenView> {
    if tokens.contains_key(key) && tokens[key].refresh_at_ns > now_ns {
        Some(tokens[key])
    } else {
        None
    }
}

/// The warning served with a stale catalogue after a failed refresh.
pub open spec fn refresh_failed_warning(error: Seq<char>) -> Seq<char> {
    "Live refresh failed: "@ + error
}

/// The first position in `services` of a service with the unique ID `id`.
pub open spec fn first_with_id(services: Seq<CatalogServiceView>, id: Seq<char>, i: int) -> bool {
    &&& 0 <= i < services.len()
    &&& services[i].service.unique_id == id
    &&& forall|j: int| 0 <= j < i ==> (#[trigger] services[j]).service.unique_id != id
}

/// `services` with the first service whose unique ID is that of `s`
/// replaced by `s`, when there is one.
pub open spec fn with_service_replaced(
    services: Seq<CatalogServiceView>,
    s: AccessoryServiceView,
) -> Seq<CatalogServiceView> {
    if exists|i: int| first_with_id(services, s.unique_id, i) {
        let i = choose|i: int| first_with_id(services, s.unique_id, i);
        services.update(i, CatalogServiceView { service: s, ..services[i] })
    } else {
        services
    }
}

impl HomebridgeClient {
    /// The cached tokens.
    pub closed spec fn tokens(&self) -> Map<u64, CachedTokenView> {
        self.tokens@.map_values(|t: CachedToken| t@)
    }

    /// The cached catalogues.
    pub closed spec fn catalogs(&self) -> Map<u64, CachedCatalogView> {
        self.catalogs@.map_values(|c: CachedCatalog| c@)
    }

    /// A client with nothing cached.
    pub fn new() -> (c: Self)
        ensures
            c.tokens() == Map::<u64, CachedTokenView>::empty(),
            c.catalogs() == Map::<u64, CachedCatalogView>::empty(),
    {
        let c = HomebridgeClient { tokens: HashMap::new(), catalogs: HashMap::new() };
        assert(c.tokens() =~= Map::<u64, CachedTokenView>::empty());
        assert(c.catalogs() =~= Map::<u64, CachedCatalogView>::empty());
        c
    }

    /// Forgets every token.
    pub fn clear_tokens(&mut self)
        ensures
            final(self).tokens() == Map::<u64, CachedTokenView>::empty(),
            final(self).catalogs() == old(self).catalogs(),
    {
        self.tokens.clear();
        assert(self.tokens() =~= Map::<u64, CachedTokenView>::empty());
    }

    /// Forgets every catalogue.
    pub fn clear_catalogs(&mut self)
        ensures
            final(self).catalogs() == Map::<u64, CachedCatalogView>::empty(),
            final(self).tokens() == old(self).tokens(),
    {
        self.catalogs.clear();
        assert(self.catalogs() =~= Map::<u64, CachedCatalogView>::empty());
    }

    /// Forgets every token and catalogue.
    pub fn clear_all_caches(&mut self)
        ensures
            final(self).tokens() == Map::<u64, CachedTokenView>::empty(),
            final(self).catalogs() == Map::<u64, CachedCatalogView>::empty(),
    {
        self.clear_tokens();
        self.clear_catalogs();
    }

    /// The token kept under `key` when it is not yet due for renewal at
    /// `now_ns`.
    pub fn reusable_token(&self, key: u64, now_ns: u128) -> (r: Option<CachedToken>)
        ensures
            match r {
                Some(t) => reusable_token_of(self.tokens(), key, now_ns as int) == Some(t@),
                None => reusable_token_of(self.tokens(), key, now_ns as int) is None,
            },
    {
        match self.tokens.get(&key) {
            Some(t) => {
                if t.refresh_at_ns > now_ns {
                    Some(t.duplicate())
                } else {
                    None
                }
            },
            None => None,
        }
    }

    /// Keeps `token` under `key`.
    pub fn store_token(&mut self, key: u64, token: CachedToken)
        ensures
            final(self).tokens() == old(self).tokens().insert(key, token@),
            final(self).catalogs() == old(self).catalogs(),
    {
        let ghost t = token@;
        self.tokens.insert(key, token);
        assert(self.tokens() =~= old(self).tokens().insert(key, t));
    }

    /// Forgets the token under `key`, after Homebridge rejected it.
    pub fn forget_token(&mut self, key: u64)
        ensures
            final(self).tokens() == old(self).tokens().remove(key),
            final(self).catalogs() == old(self).catalogs(),
    {
        self.tokens.remove(&key);
        assert(self.tokens() =~= old(self).tokens().remove(key));
    }

    /// The catalogue kept under `key` when it is at most `ttl_seconds` old
    /// at `now_ns`, served as a fresh cached catalogue.
    pub fn fresh_catalog(&self, key: u64, ttl_seconds: u64, now_ns: u128, now_epoch: u64) -> (r:
        Option<Catalog>)
        ensures
            match r {
                Some(c) => fresh_catalog_of(
                    self.catalogs(),
                    key,
                    ttl_seconds as int,
                    now_ns as int,
                    now_epoch as int,
                ) == Some(c@),
                None => fresh_catalog_of(
                    self.catalogs(),
                    key,
                    ttl_seconds as int,
                    now_ns as int,
                    now_epoch as int,
                ) is None,
            },
    {
        match self.catalogs.get(&key) {
            Some(cached) => {
                let age = now_ns.saturating_sub(cached.fetched_at_ns);
                if age <= (ttl_seconds as u128) * 1_000_000_000 {
                    let copy = CachedCatalog {
                        catalog: cached.catalog.duplicate(),
                        fetched_at_ns: cached.fetched_at_ns,
                    };
                    Some(decorate_cached_catalog(copy, false, None, now_ns, now_epoch))
                } else {
                    None
                }
            },
            None => None,
        }
    }

    /// Keeps `catalog`, fetched at `now_ns`, under `key`.
    pub fn store_catalog(&mut self, key: u64, catalog: Catalog, now_ns: u128)
        ensures
            final(self).catalogs() == old(self).catalogs().insert(
                key,
                CachedCatalogView { catalog: catalog@, fetched_at_ns: now_ns },
            ),
            final(self).tokens() == old(self).tokens(),
    {
        let cached = CachedCatalog { catalog, fetched_at_ns: now_ns };
        let ghost v = cached@;
        self.catalogs.insert(key, cached);
        assert(self.catalogs() =~= old(self).catalogs().insert(key, v));
    }

    /// The outcome of a catalogue request once the live refresh has run:
    /// a fetched catalogue is kept and returned; after a failure the kept
    /// catalogue is served as stale with a warning, and the error is
    /// returned only when nothing is kept.
    pub fn settle_catalog(
        &mut self,
        key: u64,
        fetched: Result<Catalog, String>,
        now_ns: u128,
        now_epoch: u64,
    ) -> (r: Result<Catalog, String>)
        ensures
            final(self).tokens() == old(self).tokens(),
            match fetched {
                Ok(c) => {
                    &&& final(self).catalogs() == old(self).catalogs().insert(
                        key,
                        CachedCatalogView { catalog: c@, fetched_at_ns: now_ns },
                    )
                    &&& r matches Ok(out) && out@ == c@
                },
                Err(e) => {
                    &&& final(self).catalogs() == old(self).catalogs()
                    &&& if old(self).catalogs().contains_key(key) {
                        r matches Ok(out) && out@ == served(
                            old(self).catalogs()[key],
                            true,
                            Some(refresh_failed_warning(e@)),
                            now_ns as int,
                            now_epoch as int,
                        )
                    } else {
                        r matches Err(msg) && msg@ == e@
                    }
                },
            },
    {
        match fetched {
            Ok(catalog) => {
                let kept = catalog.duplicate();
                self.store_catalog(key, kept, now_ns);
                Ok(catalog)
            },
            Err(error) => {
                match self.catalogs.get(&key) {
                    Some(cached) => {
                        let copy = CachedCatalog {
                            catalog: cached.catalog.duplicate(),
                            fetched_at_ns: cached.fetched_at_ns,
                        };
                        let warning = concat("Live refresh failed: ", error.as_str());
                        Ok(decorate_cached_catalog(copy, true, Some(warning), now_ns, now_epoch))
                    },
                    None => Err(error),
                }
            },
        }
    }

    /// The outcome of a live refresh used as a health check: a fetched
    /// catalogue is kept and returned; a failure is returned as it is and is
    /// never answered from the cache.
    pub fn keep_live_catalog(&mut self, key: u64, fetched: Result<Catalog, String>, now_ns: u128) -> (r: Result<
        Catalog,
        String,
    >)
        ensures
            final(self).tokens() == old(self).tokens(),
            match fetched {
                Ok(c) => final(self).catalogs() == old(self).catalogs().insert(
                    key,
                    CachedCatalogView { catalog: c@, fetched_at_ns: now_ns },
                ) && (r matches Ok(out) && out@ == c@),
                Err(e) => final(self).catalogs() == old(self).catalogs() && (r matches Err(m) && m@ == e@),
            },
    {
        match fetched {
            Ok(catalog) => {
                let kept = catalog.duplicate();
                self.store_catalog(key, kept, now_ns);
                Ok(catalog)
            },
            Err(error) => Err(error),
        }
    }

    /// Replaces, in the catalogue kept under `key`, the first service with
    /// the unique ID of `service` by `service`.
    pub fn update_cached_service(&mut self, key: u64, service: &AccessoryService)
        ensures
            final(self).tokens() == old(self).tokens(),
            if old(self).catalogs().contains_key(key) {
                final(self).catalogs() == old(self).catalogs().insert(
                    key,
                    CachedCatalogView {
                        catalog: CatalogView {
                            services: with_service_replaced(
                                old(self).catalogs()[key].catalog.services,
                                service@,
                            ),
                            ..old(self).catalogs()[key].catalog
                        },
                        ..old(self).catalogs()[key]
                    },
                )
            } else {
                final(self).catalogs() == old(self).catalogs()
            },
    {
        let taken = self.catalogs.remove(&key);
        match taken {
            Some(mut cached) => {
                let ghost before = cached@;
                let mut i: usize = 0;
                let n = cached.catalog.services.len();
                while i < n
                    invariant
                        i <= n == cached.catalog.services@.len(),
                        cached@ == before,
                        forall|j: int|
                            0 <= j < i ==> (#[trigger] before.catalog.services[j]).service.unique_id
                                != service@.unique_id,
                    ensures
                        i <= n,
                        cached@ == before,
                        forall|j: int|
                            0 <= j < i ==> (#[trigger] before.catalog.services[j]).service.unique_id
                                != service@.unique_id,
                        i < n ==> before.catalog.services[i as int].service.unique_id
                            == service@.unique_id,
                    decreases n - i,
                {
                    assert(before.catalog.services[i as int] == cached.catalog.services@[i as int]@);
                    if same_text(
                        cached.catalog.services[i].service.unique_id.as_str(),
                        service.unique_id.as_str(),
                    ) {
                        break;
                    }
                    i = i + 1;
                }
                if i < n {
                    let replacement = service.duplicate();
                    let mut services: Vec<crate::models::CatalogService> = Vec::new();
                    std::mem::swap(&mut services, &mut cached.catalog.services);
                    let mut item = services.remove(i);
                    item.service = replacement;
                    services.insert(i, item);
                    cached.catalog.services = services;
                    proof {
                        assert(first_with_id(before.catalog.services, service@.unique_id, i as int));
                        let c = choose|c: int| first_with_id(before.catalog.services, service@.unique_id, c);
                        assert(c == i) by {
                            if c < i {
                            } else if c > i {
                            }
                        }
                        assert(cached@.catalog.services =~= with_service_replaced(
                            before.catalog.services,
                            service@,
                        ));
                    }
                } else {
                    proof {
                        assert(!exists|k: int| first_with_id(before.catalog.services, service@.unique_id, k));
                        assert(cached@.catalog.services =~= with_service_replaced(
                            before.catalog.services,
                            service@,
                        ));
                    }
                }
                let ghost v = cached@;
                self.catalogs.insert(key, cached);
                proof {
                    assert(v.catalog =~= CatalogView {
                        services: with_service_replaced(before.catalog.services, service@),
                        ..before.catalog
                    });
                    assert(self.catalogs() =~= old(self).catalogs().insert(key, v));
                }
            },
            None => {
                assert(self.catalogs() =~= old(self).catalogs());
            },
        }
    }
}

/// A catalogue kept at instant `t` is served back, unchanged but for the
/// cache markers, to a request within its lifetime; after clearing the
/// caches nothing is served.
pub proof fn law_catalog_read_back(
    catalogs: Map<u64, CachedCatalogView>,
    key: u64,
    c: CatalogView,
    t: u128,
    ttl_seconds: int,
    now_ns: int,
    now_epoch: int,
)
    requires
        t <= now_ns <= t + ttl_seconds * 1_000_000_000,
    ensures
        fresh_catalog_of(
            catalogs.insert(key, CachedCatalogView { catalog: c, fetched_at_ns: t }),
            key,
            ttl_seconds,
            now_ns,
            now_epoch,
        ) matches Some(s) && s.services == c.services && s.rooms == c.rooms && s.device_count
            == c.device_count && s.cached && !s.stale,
        fresh_catalog_of(Map::empty(), key, ttl_seconds, now_ns, now_epoch) is None,
{
}

/// A token kept after a sign-in is reused until its renewal instant and
/// not from then on; a forgotten token is never reused.
pub proof fn law_token_reused_until_renewal(
    tokens: Map<u64, CachedTokenView>,
    key: u64,
    r: TokenResponse,
    authentication: Seq<char>,
    signed_at_ns: int,
    now_epoch: int,
    now_ns: int,
)
    requires
        0 <= signed_at_ns,
        signed_at_ns + token_lifetime(r.expires_in as int) * 1_000_000_000 <= u128::MAX,
    ensures
        ({
            let t = token_from(r, authentication, signed_at_ns, now_epoch);
            let kept = tokens.insert(key, t);
            &&& now_ns < t.refresh_at_ns ==> reusable_token_of(kept, key, now_ns) == Some(t)
            &&& now_ns >= t.refresh_at_ns ==> reusable_token_of(kept, key, now_ns) is None
            &&& reusable_token_of(kept.remove(key), key, now_ns) is None
        }),
{
}

/// After a failed refresh the library never presents a catalogue as
/// current: what it serves is marked cached and stale, and carries the
/// failure in its warning.
pub proof fn law_failed_refresh_is_stale(c: CachedCatalogView, error: Seq<char>, now_ns: int, now_epoch: int)
    ensures
        served(c, true, Some(refresh_failed_warning(error)), now_ns, now_epoch).stale,
        served(c, true, Some(refresh_failed_warning(error)), now_ns, now_epoch).cached,
        served(c, true, Some(refresh_failed_warning(error)), now_ns, now_epoch).warning == Some(
            "Live refresh failed: "@ + error,
        ),
        served(c, true, Some(refresh_failed_warning(error)), now_ns, now_epoch).services
            == c.catalog.services,
{
}

} // verus!
