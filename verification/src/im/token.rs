//! The cached access token of an adapter that authenticates by client
//! credentials, and the rule that decides when it is fetched anew.

use vstd::prelude::*;

verus! {

/// A cached token is used only while it has more than this many seconds left.
pub const TOKEN_SAFETY_MARGIN_SECONDS: i64 = 300;

/// The lifetime assumed where the platform names none.
pub const DEFAULT_TOKEN_LIFETIME_SECONDS: i64 = 7200;

/// What an `AccessToken` holds, with the token as a character sequence.
pub struct AccessTokenView {
    pub token: Seq<char>,
    pub expires_at: i64,
}

/// A token and the second, counted from the epoch, at which it expires.
#[derive(Debug)]
pub struct AccessToken {
    pub token: String,
    pub expires_at: i64,
}

impl View for AccessToken {
    type V = AccessTokenView;

    open spec fn view(&self) -> AccessTokenView {
        AccessTokenView { token: self.token@, expires_at: self.expires_at }
    }
}

/// Where a token stands in its life.
#[derive(Debug, Clone, Copy, PartialEq, Eq, Structural)]
pub enum TokenState {
    /// Nothing is cached.
    NoToken,
    /// The cached token has more than the safety margin left.
    Valid,
    /// A token is cached, but too close to its expiry to be used.
    Expiring,
}

/// `value` brought into the range of `i64`.
pub open spec fn clamp_i64(value: int) -> i64 {
    if value < i64::MIN {
        i64::MIN
    } else if value > i64::MAX {
        i64::MAX
    } else {
        value as i64
    }
}

/// The state of `cached` at `now`.
pub open spec fn token_state(cached: Option<AccessTokenView>, now: i64) -> TokenState {
    match cached {
        None => TokenState::NoToken,
        Some(t) => if t.expires_at - now > TOKEN_SAFETY_MARGIN_SECONDS {
            TokenState::Valid
        } else {
            TokenState::Expiring
        },
    }
}

/// The token to use at `now` without a fetch, if there is one.
pub open spec fn usable_token(cached: Option<AccessTokenView>, now: i64) -> Option<Seq<char>> {
    if token_state(cached, now) == TokenState::Valid {
        Some(cached->0.token)
    } else {
        None
    }
}

/// The one place that holds an adapter's token. The token and its expiry are
/// read and replaced together. Its view is the cached token, if any.
pub struct TokenCache {
    current: Option<AccessToken>,
}

impl View for TokenCache {
    type V = Option<AccessTokenView>;

    closed spec fn view(&self) -> Option<AccessTokenView> {
        match self.current {
            Some(t) => Some(t@),
            None => None,
        }
    }
}

impl TokenCache {
    /// A cache without a token.
    pub fn new() -> (cache: Self)
        ensures
            cache@ is None,
    {
        TokenCache { current: None }
    }

    /// Where the cached token stands at `now`.
    pub fn state(&self, now: i64) -> (s: TokenState)
        ensures
            s == token_state(self@, now),
    {
        match &self.current {
            None => TokenState::NoToken,
            Some(t) => {
                if (t.expires_at as i128) - (now as i128) > TOKEN_SAFETY_MARGIN_SECONDS as i128 {
                    TokenState::Valid
                } else {
                    TokenState::Expiring
                }
            },
        }
    }

    /// The cached token, where it may be used at `now`. `None` asks for a
    /// fetch.
    pub fn lookup(&self, now: i64) -> (token: Option<String>)
        ensures
            crate::im::gateway::opt_text(token) == usable_token(self@, now),
    {
        match &self.current {
            None => None,
            Some(t) => {
                if (t.expires_at as i128) - (now as i128) > TOKEN_SAFETY_MARGIN_SECONDS as i128 {
                    Some(t.token.clone())
                } else {
                    None
                }
            },
        }
    }

    /// Replaces token and expiry by a token fetched at `now` that lives for
    /// `expires_in` seconds.
    pub fn store(&mut self, token: &str, expires_in: i64, now: i64)
        ensures
            final(self)@ == Some(
                AccessTokenView { token: token@, expires_at: clamp_i64(now + expires_in) },
            ),
    {
        let sum: i128 = (now as i128) + (expires_in as i128);
        let expires_at: i64 = if sum < i64::MIN as i128 {
            i64::MIN
        } else if sum > i64::MAX as i128 {
            i64::MAX
        } else {
            sum as i64
        };
        self.current = Some(AccessToken { token: token.to_string(), expires_at });
    }

    /// Forgets the token.
    pub fn clear(&mut self)
        ensures
            final(self)@ is None,
    {
        self.current = None;
    }
}

/// A token fetched at `now` with more than the safety margin to live is used
/// without a second fetch for as long as that margin lasts.
pub proof fn lemma_fetched_token_is_reused(token: Seq<char>, expires_in: i64, now: i64, later: i64)
    requires
        now <= later,
        now + expires_in <= i64::MAX,
        now + expires_in - later > TOKEN_SAFETY_MARGIN_SECONDS,
    ensures
        usable_token(
            Some(AccessTokenView { token, expires_at: clamp_i64(now + expires_in) }),
            later,
        ) == Some(token),
{
}

/// What asking for a token comes to.
#[derive(Debug)]
pub enum TokenStep {
    /// The cached token may be used: nothing is fetched.
    Cached(String),
    /// A token has to be fetched with this request.
    Fetch(crate::im::http::HttpRequest),
}

/// What a `TokenStep` holds.
pub enum TokenStepView {
    Cached(Seq<char>),
    Fetch(crate::im::http::HttpRequestView),
}

impl View for TokenStep {
    type V = TokenStepView;

    open spec fn view(&self) -> TokenStepView {
        match self {
            TokenStep::Cached(t) => TokenStepView::Cached(t@),
            TokenStep::Fetch(r) => TokenStepView::Fetch(r@),
        }
    }
}

/// What asking for a token at `now` comes to: the cached token while it has
/// more than the safety margin left, else one fetch with `request`.
pub open spec fn token_step_of(
    cached: Option<AccessTokenView>,
    now: i64,
    request: crate::im::http::HttpRequestView,
) -> TokenStepView {
    match usable_token(cached, now) {
        Some(token) => TokenStepView::Cached(token),
        None => TokenStepView::Fetch(request),
    }
}

} // verus!
