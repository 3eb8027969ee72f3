use vstd::prelude::*;

use crate::error::{CredentialError, TransportError};

verus! {

/// A token is refreshed once it has less than this long to live
/// (five minutes, in milliseconds).
pub const REFRESH_MARGIN_MS: i64 = 300_000;

/// How long a freshly minted token is valid (one day, in milliseconds).
pub const TOKEN_LIFETIME_MS: i64 = 86_400_000;

/// Something that mints an authorization token valid until a given instant
/// (milliseconds since the Unix epoch). It may be invoked concurrently.
pub trait TokenSource {
    fn get(&self, expires_at_ms: i64) -> Result<String, CredentialError>;
}

/// Whether a cached token that expires at `expires_at` must be replaced at
/// instant `now`: when there is none, or when it has less than the refresh
/// margin left.
pub open spec fn needs_new_token(expires_at: Option<i64>, now: i64) -> bool {
    match expires_at {
        None => true,
        Some(e) => e - now < REFRESH_MARGIN_MS,
    }
}

/// The expiration instant given to a token minted at `now`.
pub open spec fn fresh_expiration(now: i64) -> int {
    now + TOKEN_LIFETIME_MS
}

/// Whether a token minted at `now` has an expiration that fits in a timestamp.
pub open spec fn expiration_fits(now: i64) -> bool {
    fresh_expiration(now) <= i64::MAX
}

/// One use of a token cache at instant `now`, from state `old` to state `new`,
/// with outcome `r` (the token handed out, or the failure). The cached token
/// is reused exactly while it has the refresh margin left; otherwise a token
/// minted to expire one lifetime after `now` replaces it, and a failure to
/// mint leaves the cache as it was.
pub open spec fn token_step(
    old: TokenState,
    now: i64,
    r: Result<Seq<char>, TransportError>,
    new: TokenState,
) -> bool {
    if !needs_new_token(old.expires_at, now) {
        r == Ok::<Seq<char>, TransportError>(old.token) && new == old
    } else if !expiration_fits(now) {
        r == Err::<Seq<char>, TransportError>(TransportError::ExpirationOutOfRange) && new == old
    } else {
        match r {
            Ok(t) => new.token == t && new.expires_at == Some(
                fresh_expiration(now) as i64,
            ),
            Err(e) => e is Credential && new == old,
        }
    }
}

/// Whether `minted` is a possible outcome of asking `source` for a token
/// valid until `expires_at_ms`.
pub open spec fn minted_by<TS: TokenSource>(
    source: &TS,
    expires_at_ms: i64,
    minted: Result<String, CredentialError>,
) -> bool {
    call_ensures(TS::get, (source, expires_at_ms), minted)
}

/// What a cache in state `old` holds after storing the outcome `minted` of
/// minting a token that expires at `expires_at_ms`.
pub open spec fn after_mint(
    old: TokenState,
    minted: Result<String, CredentialError>,
    expires_at_ms: i64,
) -> TokenState {
    match minted {
        Ok(t) => TokenState { token: t@, expires_at: Some(expires_at_ms) },
        Err(_) => old,
    }
}

/// What the caller is handed for the outcome `minted` of minting a token.
pub open spec fn mint_result(minted: Result<String, CredentialError>) -> Result<String, TransportError> {
    match minted {
        Ok(t) => Ok(t),
        Err(e) => Err(TransportError::Credential(e)),
    }
}

/// One use at instant `now` of a cache fed by `source`, from state `old` to
/// state `new`, handing out `r`: a `token_step` in which a needed token is
/// what `source` gave when asked for one valid until one lifetime after `now`.
pub open spec fn token_refresh<TS: TokenSource>(
    source: &TS,
    old: TokenState,
    now: i64,
    r: Result<String, TransportError>,
    new: TokenState,
) -> bool {
    &&& token_step(old, now, token_outcome(r), new)
    &&& needs_new_token(old.expires_at, now) && expiration_fits(now) ==> exists|
        minted: Result<String, CredentialError>,
    |
        #[trigger] minted_by(source, fresh_expiration(now) as i64, minted) && r == mint_result(
            minted,
        ) && new == after_mint(old, minted, fresh_expiration(now) as i64)
}

/// The token handed out by `r`, as a character sequence, or its failure.
pub open spec fn token_outcome(r: Result<String, TransportError>) -> Result<Seq<char>, TransportError> {
    match r {
        Ok(t) => Ok(t@),
        Err(e) => Err(e),
    }
}

/// What a token cache holds: the current token and when it expires.
pub struct TokenState {
    pub token: Seq<char>,
    pub expires_at: Option<i64>,
}

/// The cached authorization token of one transport.
#[derive(Clone, Debug)]
pub struct TokenCache {
    token: String,
    expires_at: Option<i64>,
}

impl View for TokenCache {
    type V = TokenState;

    closed spec fn view(&self) -> TokenState {
        TokenState { token: self.token@, expires_at: self.expires_at }
    }
}

impl TokenCache {
    /// A cache that holds no token yet.
    pub fn new() -> (r: Self)
        ensures
            r@.token == Seq::<char>::empty(),
            r@.expires_at is None,
    {
        TokenCache { token: String::new(), expires_at: None }
    }

    /// The token currently held, without refreshing it.
    pub fn token(&self) -> (r: &str)
        ensures
            r@ == self@.token,
    {
        self.token.as_str()
    }

    /// When the token currently held expires, if one has been minted.
    pub fn expires_at(&self) -> (r: Option<i64>)
        ensures
            r == self@.expires_at,
    {
        self.expires_at
    }

    /// Whether the token must be replaced before use at instant `now_ms`.
    pub fn needs_refresh(&self, now_ms: i64) -> (r: bool)
        ensures
            r == needs_new_token(self@.expires_at, now_ms),
    {
        match self.expires_at {
            None => true,
            Some(e) => (e as i128) - (now_ms as i128) < REFRESH_MARGIN_MS as i128,
        }
    }

    /// Stores the outcome of minting a token that expires at `expires_at_ms`.
    /// A minted token replaces the cached one together with its expiration;
    /// a minting failure leaves the cache as it was and is reported.
    pub fn store_minted(
        &mut self,
        minted: Result<String, CredentialError>,
        expires_at_ms: i64,
    ) -> (r: Result<String, TransportError>)
        ensures
            r == mint_result(minted),
            final(self)@ == after_mint(old(self)@, minted, expires_at_ms),
    {
        match minted {
            Ok(t) => {
                let out = t.clone();
                self.token = t;
                self.expires_at = Some(expires_at_ms);
                Ok(out)
            },
            Err(e) => Err(TransportError::Credential(e)),
        }
    }

    /// The token to use at instant `now_ms`. The cached token is reused while
    /// it has at least the refresh margin left; otherwise `source` is asked
    /// for a token valid until one lifetime after `now_ms`, and what it
    /// returns is stored as `store_minted` says.
    pub fn current_token<TS: TokenSource>(&mut self, source: &TS, now_ms: i64) -> (r: Result<
        String,
        TransportError,
    >)
        ensures
            token_refresh(source, old(self)@, now_ms, r, final(self)@),
    {
        if !self.needs_refresh(now_ms) {
            return Ok(self.token.clone());
        }
        match mint_expiration(now_ms) {
            None => Err(TransportError::ExpirationOutOfRange),
            Some(expires_at_ms) => {
                let minted = source.get(expires_at_ms);
                proof {
                    assert(minted_by(source, expires_at_ms, minted));
                }
                self.store_minted(minted, expires_at_ms)
            },
        }
    }
}

/// The expiration instant of a token minted at `now_ms`, or `None` where it
/// does not fit in a timestamp.
pub fn mint_expiration(now_ms: i64) -> (r: Option<i64>)
    ensures
        r == (if expiration_fits(now_ms) {
            Some(fresh_expiration(now_ms) as i64)
        } else {
            None::<i64>
        }),
{
    if now_ms > i64::MAX - TOKEN_LIFETIME_MS {
        None
    } else {
        Some(now_ms + TOKEN_LIFETIME_MS)
    }
}

/// A token minted at `minted_at` is reused by every later query up to the
/// refresh margin before its expiration, and replaced by any query after that.
pub proof fn lemma_fresh_token_reuse(minted_at: i64, now: i64)
    requires
        expiration_fits(minted_at),
        minted_at <= now,
    ensures
        !needs_new_token(Some(fresh_expiration(minted_at) as i64), now) <==> now
            <= minted_at + TOKEN_LIFETIME_MS - REFRESH_MARGIN_MS,
{
}

/// The last whole second that a chrono timestamp can hold, in seconds since
/// the Unix epoch (the end of the year 262142).
pub const MAX_CLOCK_SECS: i64 = 8_210_266_876_799;

/// Relies on std's SystemTime::now and SystemTime::duration_since: the time
/// elapsed since the Unix epoch as whole seconds and the nanoseconds past
/// them, or `None` when the system clock reads before the epoch.
#[verifier::external_body]
fn elapsed_since_epoch() -> (r: Option<(u64, u32)>)
    ensures
        r matches Some((_, nanos)) ==> nanos < 1_000_000_000,
{
    std::time::SystemTime::now()
        .duration_since(std::time::UNIX_EPOCH)
        .ok()
        .map(|d| (d.as_secs(), d.subsec_nanos()))
}

/// Relies on chrono's DateTime::from_timestamp and DateTime::timestamp_millis:
/// the instant `secs` seconds and `nanos` nanoseconds after the Unix epoch,
/// in whole milliseconds, or `None` outside chrono's date range.
#[verifier::external_body]
fn timestamp_millis_of(secs: i64, nanos: u32) -> (r: Option<i64>)
    ensures
        r matches Some(ms) ==> secs <= MAX_CLOCK_SECS && ms == secs * 1000 + nanos / 1_000_000,
{
    chrono::DateTime::from_timestamp(secs, nanos).map(|t| t.timestamp_millis())
}

/// The current time in milliseconds since the Unix epoch, or `None` when the
/// system clock reads before the epoch or past chrono's date range.
pub fn now_millis() -> (r: Option<i64>)
    ensures
        r matches Some(ms) ==> 0 <= ms && expiration_fits(ms),
{
    match elapsed_since_epoch() {
        None => None,
        Some((secs, nanos)) => {
            if secs > MAX_CLOCK_SECS as u64 {
                None
            } else {
                timestamp_millis_of(secs as i64, nanos)
            }
        },
    }
}

} // verus!
