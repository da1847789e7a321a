//! The OAuth session with which the bridge logs in to Discord.
use vstd::prelude::*;
use vstd::string::*;

verus! {

/// The earliest instant that `chrono::DateTime<Utc>` holds, in seconds since
/// the Unix epoch (1 January of the year -262143, 00:00:00 UTC).
pub const MIN_TIMESTAMP: i64 = -8334601315200i64;

/// The last whole second that `chrono::DateTime<Utc>` holds, in seconds since
/// the Unix epoch (31 December of the year 262142, 23:59:59 UTC).
pub const MAX_TIMESTAMP: i64 = 8210266876799i64;

/// Where the token endpoint is.
pub const TOKEN_URL: &'static str = "https://discord.com/api/oauth2/token";

/// Where the authorization code grant redirects to.
pub const REDIRECT_URI: &'static str = "http://127.0.0.1";

/// The name of the file in the cache directory that holds the session.
pub const CACHE_FILE_NAME: &'static str = "session_cache.json";

/// An instant in UTC: whole seconds since the Unix epoch and the nanoseconds
/// since that second.
#[derive(Clone, Copy, Debug, PartialEq, Eq, Structural)]
pub struct Timestamp {
    pub secs: i64,
    pub nanos: u32,
}

/// Whether `secs` seconds since the epoch is an instant that chrono represents.
pub open spec fn representable(secs: int) -> bool {
    MIN_TIMESTAMP <= secs <= MAX_TIMESTAMP
}

/// Whether `t` is an ordinary (not leap) instant that chrono represents.
pub open spec fn ordinary(t: Timestamp) -> bool {
    t.nanos < 1_000_000_000 && representable(t.secs as int)
}

/// Whether `a` comes strictly before `b`.
pub open spec fn before(a: Timestamp, b: Timestamp) -> bool {
    a.secs < b.secs || (a.secs == b.secs && a.nanos < b.nanos)
}

impl Timestamp {
    /// Whether this instant comes strictly before `other`, in the order of
    /// `chrono::DateTime`: by the second, then by the nanosecond.
    pub fn is_before(&self, other: &Timestamp) -> (r: bool)
        ensures
            r == before(*self, *other),
    {
        self.secs < other.secs || (self.secs == other.secs && self.nanos < other.nanos)
    }
}

/// Calls `chrono::Utc::now()` and reads `timestamp()` and
/// `timestamp_subsec_nanos()` of it. The result is the time of the call. The
/// source builds it with `DateTime::from_timestamp` (unwrapped) from the
/// system time since the Unix epoch, so it is an ordinary instant in chrono's
/// range, not before the epoch; which instant it is is left unsaid.
#[verifier::external_body]
fn current_time() -> (r: Timestamp)
    ensures
        ordinary(r),
        r.secs >= 0,
{
    let now = chrono::Utc::now();
    Timestamp { secs: now.timestamp(), nanos: now.timestamp_subsec_nanos() }
}

/// Calls chrono's `DateTime::<Utc>::from_timestamp(t.secs, t.nanos)`, adds
/// `TimeDelta::seconds(secs)` to it, and reads `timestamp()` and
/// `timestamp_subsec_nanos()` of the sum. For an ordinary instant and a sum
/// that chrono represents, the source adds the seconds and keeps the
/// nanoseconds; `TimeDelta::seconds` accepts any `secs` that keeps the sum in
/// that range.
#[verifier::external_body]
fn add_seconds(t: Timestamp, secs: i64) -> (r: Timestamp)
    requires
        ordinary(t),
        representable(t.secs + secs),
    ensures
        r.secs == t.secs + secs,
        r.nanos == t.nanos,
{
    let start = chrono::DateTime::from_timestamp(t.secs, t.nanos).unwrap();
    let end = start + chrono::TimeDelta::seconds(secs);
    Timestamp { secs: end.timestamp(), nanos: end.timestamp_subsec_nanos() }
}

/// An OAuth session: the access token, when it expires, and the token that renews it.
#[derive(Debug)]
pub struct Session {
    pub access_token: String,
    pub expires_at: Timestamp,
    pub refresh_token: String,
}

/// The token endpoint's answer.
#[derive(Debug)]
pub struct TokenResponse {
    pub access_token: String,
    pub expires_in: i64,
    pub refresh_token: String,
}

/// Failure to obtain a session from an authorization code.
#[derive(Debug)]
pub enum OAuthError {
    /// The request failed; the text is the HTTP client's message.
    TokenExchange(String),
    /// The answer is not a token response; the text is the parser's message.
    TokenParse(String),
}

/// Failure to obtain a session from the cache.
#[derive(Debug)]
pub enum CacheError {
    /// The cache file could not be read; the text is the I/O error's message.
    Read(String),
    /// The cache file does not hold a session; the text is the parser's message.
    Parse(String),
    /// Renewing the expired session failed; the text is the HTTP client's message.
    TokenExchange(String),
}

/// How a token request proves the right to a token.
pub enum Grant {
    /// The code that the user's authorization produced.
    AuthorizationCode { code: String },
    /// The refresh token of an expired session.
    RefreshToken { refresh_token: String },
}

/// The form fields of a token request, in order.
pub open spec fn token_form(client_id: Seq<char>, client_secret: Seq<char>, grant: Grant) -> Seq<(Seq<char>, Seq<char>)> {
    match grant {
        Grant::AuthorizationCode { code } => seq![
            ("client_id"@, client_id),
            ("client_secret"@, client_secret),
            ("grant_type"@, "authorization_code"@),
            ("code"@, code@),
            ("redirect_uri"@, REDIRECT_URI@),
        ],
        Grant::RefreshToken { refresh_token } => seq![
            ("client_id"@, client_id),
            ("client_secret"@, client_secret),
            ("grant_type"@, "refresh_token"@),
            ("refresh_token"@, refresh_token@),
        ],
    }
}

/// The view of a list of form fields.
pub open spec fn form_view(form: Seq<(&'static str, String)>) -> Seq<(Seq<char>, Seq<char>)> {
    form.map_values(|f: (&'static str, String)| (f.0@, f.1@))
}

/// The form fields of a token request that `grant` makes for the client.
pub fn token_request_form(client_id: &str, client_secret: &str, grant: Grant) -> (r: Vec<(&'static str, String)>)
    ensures
        form_view(r@) == token_form(client_id@, client_secret@, grant),
{
    let ghost g = grant;
    let mut form: Vec<(&'static str, String)> = Vec::new();
    form.push(("client_id", String::from_str(client_id)));
    form.push(("client_secret", String::from_str(client_secret)));
    match grant {
        Grant::AuthorizationCode { code } => {
            form.push(("grant_type", String::from_str("authorization_code")));
            form.push(("code", code));
            form.push(("redirect_uri", String::from_str(REDIRECT_URI)));
        },
        Grant::RefreshToken { refresh_token } => {
            form.push(("grant_type", String::from_str("refresh_token")));
            form.push(("refresh_token", refresh_token));
        },
    }
    assert(form_view(form@) =~= token_form(client_id@, client_secret@, g));
    form
}

/// The session that a token response grants at `now`: it expires
/// `expires_in` seconds later.
pub open spec fn granted_session(resp: TokenResponse, now: Timestamp) -> Session {
    Session {
        access_token: resp.access_token,
        expires_at: Timestamp { secs: (now.secs + resp.expires_in) as i64, nanos: now.nanos },
        refresh_token: resp.refresh_token,
    }
}

/// What a token response grants at `now`: the session, where its expiry is
/// an instant that chrono represents, else nothing.
pub open spec fn grant_at(resp: TokenResponse, now: Timestamp) -> Option<Session> {
    if representable(now.secs + resp.expires_in) {
        Some(granted_session(resp, now))
    } else {
        None
    }
}

/// `choice` is what to do at `now` with `session`, read from the cache, for
/// the client `client_id` with `client_secret`: use it if it has not expired,
/// else renew it with its refresh token.
pub open spec fn is_cache_choice(
    session: Session,
    client_id: Seq<char>,
    client_secret: Seq<char>,
    now: Timestamp,
    choice: CachedSession,
) -> bool {
    &&& before(now, session.expires_at) ==> choice == CachedSession::Fresh(session)
    &&& !before(now, session.expires_at) ==> (choice matches CachedSession::Refresh(form) && form_view(form@)
        == token_form(client_id, client_secret, Grant::RefreshToken { refresh_token: session.refresh_token }))
}

/// What happens to a session read from the cache.
pub enum CachedSession {
    /// It has not expired: use it.
    Fresh(Session),
    /// It has expired: renew it with a token request with these form fields.
    Refresh(Vec<(&'static str, String)>),
}

impl Session {
    /// Whether the session has not expired at `now`: it expires strictly after `now`.
    pub fn is_valid_at(&self, now: Timestamp) -> (r: bool)
        ensures
            r == before(now, self.expires_at),
    {
        now.is_before(&self.expires_at)
    }

    /// The session that `resp` grants at `now`. chrono panics where the
    /// expiry is out of its range, so such inputs are left out.
    pub fn from_token_response_at(resp: TokenResponse, now: Timestamp) -> (r: Session)
        requires
            ordinary(now),
            representable(now.secs + resp.expires_in),
        ensures
            r == granted_session(resp, now),
    {
        let expires_at = add_seconds(now, resp.expires_in);
        Session { access_token: resp.access_token, expires_at, refresh_token: resp.refresh_token }
    }

    /// What `resp` grants at `now`: the session expiring `expires_in` seconds
    /// after `now`, or `None` where that expiry is outside chrono's range, on
    /// which chrono panics.
    pub fn grant_at_time(resp: TokenResponse, now: Timestamp) -> (r: Option<Session>)
        requires
            ordinary(now),
        ensures
            r == grant_at(resp, now),
    {
        if resp.expires_in >= MIN_TIMESTAMP - now.secs && resp.expires_in <= MAX_TIMESTAMP - now.secs {
            Some(Self::from_token_response_at(resp, now))
        } else {
            None
        }
    }

    /// The session that `resp` grants now: for the instant `now` that the
    /// clock reads (ordinary, not before the epoch), what `grant_at_time`
    /// gives: the session expiring `expires_in` seconds later, or `None` where
    /// that expiry is outside chrono's range, on which chrono panics.
    pub fn from_token_response(resp: TokenResponse) -> (r: Option<Session>)
        ensures
            exists|now: Timestamp|
                ordinary(now) && now.secs >= 0 && r == #[trigger] grant_at(resp, now),
    {
        let now = current_time();
        Self::grant_at_time(resp, now)
    }

    /// What to do with this session, read from the cache, at `now`: use it if
    /// it has not expired, else renew it with its refresh token.
    pub fn check_cached_at(self, client_id: &str, client_secret: &str, now: Timestamp) -> (r: CachedSession)
        ensures
            before(now, self.expires_at) ==> r == CachedSession::Fresh(self),
            !before(now, self.expires_at) ==> (r matches CachedSession::Refresh(form) && form_view(form@)
                == token_form(client_id@, client_secret@, Grant::RefreshToken { refresh_token: self.refresh_token })),
    {
        if self.is_valid_at(now) {
            CachedSession::Fresh(self)
        } else {
            CachedSession::Refresh(
                token_request_form(client_id, client_secret, Grant::RefreshToken { refresh_token: self.refresh_token }),
            )
        }
    }

    /// What to do with this session, read from the cache, now: use it if it
    /// has not expired, else renew it with its refresh token.
    pub fn check_cached(self, client_id: &str, client_secret: &str) -> (r: CachedSession)
        ensures
            r matches CachedSession::Fresh(s) ==> s == self,
            r matches CachedSession::Refresh(form) ==> form_view(form@) == token_form(
                client_id@,
                client_secret@,
                Grant::RefreshToken { refresh_token: self.refresh_token },
            ),
            exists|now: Timestamp|
                ordinary(now) && now.secs >= 0 && #[trigger] is_cache_choice(self, client_id@, client_secret@, now, r),
    {
        let ghost s = self;
        let now = current_time();
        let r = self.check_cached_at(client_id, client_secret, now);
        assert(is_cache_choice(s, client_id@, client_secret@, now, r));
        r
    }
}

/// The directory that holds the cache file: the value of the
/// `DISCORD_SESSION_CACHE` variable where it is set, else the working directory.
pub fn cache_dir(env_value: Option<String>) -> (r: String)
    ensures
        r@ == match env_value {
            Some(v) => v@,
            None => "."@,
        },
{
    match env_value {
        Some(v) => v,
        None => String::from_str("."),
    }
}

/// A session made from a token response is fresh at the instant it was made
/// exactly when the response grants it a positive lifetime.
pub proof fn lemma_granted_session_fresh(resp: TokenResponse, now: Timestamp)
    requires
        ordinary(now),
        representable(now.secs + resp.expires_in),
    ensures
        before(now, granted_session(resp, now).expires_at) <==> resp.expires_in > 0,
{
}

/// A session that is fresh at some instant was fresh at every earlier instant.
pub proof fn lemma_fresh_earlier(s: Session, earlier: Timestamp, later: Timestamp)
    requires
        before(earlier, later) || earlier == later,
        before(later, s.expires_at),
    ensures
        before(earlier, s.expires_at),
{
}

} // verus!
