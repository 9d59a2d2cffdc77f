//! The session manager: from a bearer cookie to a player, with the silent
//! refresh of an expired token, the upsert on login and the logout.
use vstd::prelude::*;
use crate::oauth2::OAuth2Response;
use crate::picture::StoreError;
use crate::store::{first_with, lemma_first_with_found, others, UserKey, UserRepository};
use crate::text::{prettified, prettify_error, replace_with_space, spaced};
use crate::user::{logged_out, token_expired, with_tokens, User, UserModel, EXPIRY_MARGIN_SECS};

verus! {

/// Where a bearer cookie leads.
pub enum SessionStep {
    /// No player: no cookie, an unknown token, or an expired one that cannot
    /// be refreshed.
    Anonymous,
    /// The player, whose token is still accepted.
    Authenticated(User),
    /// The player, whose token has expired and is to be refreshed with the
    /// refresh token it holds.
    NeedsRefresh(User),
}

/// Whether the access token of `user` is no longer accepted at `now`.
pub fn has_access_token_expired(user: &User, now: i64) -> (r: bool)
    ensures
        r == token_expired(user@, now),
{
    match user.access_token_expire_at {
        Some(t) => t <= now,
        None => user.refresh_token.is_some(),
    }
}

/// Whether the bearer cookie `bearer` belongs to a player whose token is
/// accepted at `now`, without any refresh.
pub fn is_logged_in(store: &UserRepository, bearer: Option<&str>, now: i64) -> (r: bool)
    ensures
        r == match bearer {
            None => false,
            Some(b) => match first_with(store@, UserKey::AccessToken, b@) {
                None => false,
                Some(i) => !token_expired(store@[i], now),
            },
        },
{
    proof {
        if let Some(b) = bearer {
            lemma_first_with_found(store@, UserKey::AccessToken, b@);
        }
    }
    match bearer {
        None => false,
        Some(b) => match store.get_user_by_bearer(b) {
            None => false,
            Some(u) => !has_access_token_expired(&u, now),
        },
    }
}

/// Name of the session cookie.
pub const BEARER_COOKIE: &'static str = "aot-bearer";

/// The session cookie, valid on every path and hidden from scripts.
pub struct SessionCookie {
    pub name: String,
    pub value: String,
    /// Seconds until the browser drops it.
    pub max_age: Option<i32>,
    /// Moment (Unix seconds) at which the browser drops it.
    pub expires: Option<i64>,
}

/// The cookie set on login: the access token, kept for as long as the
/// provider grants it where that fits in a cookie's `Max-Age`.
pub fn create_bearer_cookie(oauth2_response: &OAuth2Response) -> (r: SessionCookie)
    ensures
        r.name@ == "aot-bearer"@,
        r.value@ == oauth2_response.access_token@,
        r.max_age == match oauth2_response.expires_in {
            Some(e) => if e <= i32::MAX {
                Some(e as i32)
            } else {
                None
            },
            None => None,
        },
        r.expires is None,
{
    let max_age = match oauth2_response.expires_in {
        Some(e) => if e <= i32::MAX as u64 {
            Some(e as i32)
        } else {
            None
        },
        None => None,
    };
    SessionCookie {
        name: String::from_str("aot-bearer"),
        value: oauth2_response.access_token.clone(),
        max_age,
        expires: None,
    }
}

/// The cookie set on logout: empty, expired at once.
pub fn create_clear_bearer_cookie() -> (r: SessionCookie)
    ensures
        r.name@ == "aot-bearer"@,
        r.value@.len() == 0,
        r.max_age == Some(0i32),
        r.expires == Some(0i64),
{
    SessionCookie { name: String::from_str("aot-bearer"), value: String::new(), max_age: Some(0), expires: Some(0) }
}

/// Resolves the bearer cookie `bearer` at `now`.
pub fn resolve_session(store: &UserRepository, bearer: Option<&str>, now: i64) -> (r: SessionStep)
    ensures
        match bearer {
            None => r is Anonymous,
            Some(b) => match first_with(store@, UserKey::AccessToken, b@) {
                None => r is Anonymous,
                Some(i) => if !token_expired(store@[i], now) {
                    (r matches SessionStep::Authenticated(u) && u@ == store@[i])
                } else if store@[i].refresh_token is Some {
                    (r matches SessionStep::NeedsRefresh(u) && u@ == store@[i])
                } else {
                    r is Anonymous
                },
            },
        },
{
    let b = match bearer {
        Some(b) => b,
        None => {
            return SessionStep::Anonymous;
        },
    };
    let user = match store.get_user_by_bearer(b) {
        Some(u) => u,
        None => {
            return SessionStep::Anonymous;
        },
    };
    if !has_access_token_expired(&user, now) {
        SessionStep::Authenticated(user)
    } else if user.refresh_token.is_some() {
        SessionStep::NeedsRefresh(user)
    } else {
        SessionStep::Anonymous
    }
}

/// Ends a refresh of `user` begun at `now`: with the provider's answer the
/// new tokens are stored and the player returned; without one, or where the
/// player is no longer stored, nothing changes and no player is returned.
pub fn finish_refresh(
    store: &mut UserRepository,
    user: User,
    response: Option<&OAuth2Response>,
    now: i64,
) -> (r: Option<User>)
    ensures
        match response {
            Some(resp) => if first_with(old(store)@, UserKey::Id, user.id@) is Some {
                (r matches Some(u) && u@ == with_tokens(user@, *resp, now) && final(store)@ == others(
                    old(store)@,
                    user.id@,
                ).push(u@))
            } else {
                r is None && final(store)@ == old(store)@
            },
            None => r is None && final(store)@ == old(store)@,
        },
{
    let resp = match response {
        Some(resp) => resp,
        None => {
            return None;
        },
    };
    let mut user = user;
    user.set_auth(resp, now);
    let stored = user.duplicate();
    match store.update_user(stored) {
        Ok(()) => Some(user),
        Err(_) => None,
    }
}

/// `stored` with the tokens of `fresh`.
pub open spec fn with_tokens_of(stored: UserModel, fresh: UserModel) -> UserModel {
    UserModel {
        access_token: fresh.access_token,
        refresh_token: fresh.refresh_token,
        access_token_expire_at: fresh.access_token_expire_at,
        ..stored
    }
}

/// Stores the player `user` who has just logged in: a known player keeps its
/// record and takes the new tokens, an unknown one is added. Returns the
/// stored player.
pub fn record_login(store: &mut UserRepository, user: User) -> (r: User)
    ensures
        match first_with(old(store)@, UserKey::Id, user.id@) {
            Some(i) => r@ == with_tokens_of(old(store)@[i], user@) && final(store)@ == others(
                old(store)@,
                user.id@,
            ).push(r@),
            None => r@ == user@ && final(store)@ == old(store)@.push(user@),
        },
{
    proof {
        lemma_first_with_found(store@, UserKey::Id, user.id@);
    }
    match store.get_user_by_id(user.id.as_str()) {
        Some(existing) => {
            let mut existing = existing;
            existing.access_token = user.access_token;
            existing.refresh_token = user.refresh_token;
            existing.access_token_expire_at = user.access_token_expire_at;
            let stored = existing.duplicate();
            let _ = store.update_user(stored);
            existing
        },
        None => {
            let r = user.duplicate();
            let _ = store.create_user(user);
            r
        },
    }
}

/// Logs `user` out at `now`: its tokens are dropped and its session expires.
pub fn logout(store: &mut UserRepository, user: User, now: i64) -> (r: Result<(), StoreError>)
    ensures
        first_with(old(store)@, UserKey::Id, user.id@) is Some ==> r is Ok && final(store)@ == others(
            old(store)@,
            user.id@,
        ).push(logged_out(user@, now)),
        first_with(old(store)@, UserKey::Id, user.id@) is None ==> r == Err::<(), StoreError>(
            StoreError::NotFound,
        ) && final(store)@ == old(store)@,
{
    let mut user = user;
    user.clear_auth(now);
    store.update_user(user)
}

/// A player whose token has expired and who holds a refresh token is sent to
/// refresh; once the provider grants a token for longer than the safety
/// margin, the stored player has the new access token and an expiry strictly
/// after `now`, and is accepted again.
pub proof fn lemma_refresh_renews_session(
    store: Seq<UserModel>,
    u: UserModel,
    resp: OAuth2Response,
    now: i64,
)
    requires
        now < i64::MAX,
        token_expired(u, now),
        u.refresh_token is Some,
        resp.expires_in matches Some(e) && e > EXPIRY_MARGIN_SECS,
    ensures
        with_tokens(u, resp, now).access_token == resp.access_token@,
        with_tokens(u, resp, now).access_token_expire_at matches Some(t) && t > now,
        !token_expired(with_tokens(u, resp, now), now),
        others(store, u.id).push(with_tokens(u, resp, now)).contains(with_tokens(u, resp, now)),
{
    let s = others(store, u.id).push(with_tokens(u, resp, now));
    assert(s[s.len() - 1] == with_tokens(u, resp, now));
}


/// What the provider's redirect back to the game asks for.
pub enum CallbackStep {
    /// The provider refused: an error to show, as a sentence and with its
    /// description.
    ProviderError { error: String, description: String },
    /// The provider granted an authorization code, to exchange for tokens.
    Exchange(String),
    /// Neither a code nor a complete error.
    Malformed,
}

/// Decides what to do with the query of the provider's redirect: its
/// `error`, `error_description` and `code` parameters.
pub fn oauth2_callback_step(
    error: Option<&str>,
    error_description: Option<&str>,
    code: Option<&str>,
) -> (r: CallbackStep)
    ensures
        match (error, error_description, code) {
            (Some(e), Some(d), _) => (r matches CallbackStep::ProviderError { error: x, description: y }
                && x@ == prettified(e@) && y@ == spaced(d@, '+')),
            (Some(_), None, _) => r is Malformed,
            (None, _, Some(c)) => (r matches CallbackStep::Exchange(x) && x@ == c@),
            (None, _, None) => r is Malformed,
        },
{
    match error {
        Some(e) => match error_description {
            Some(d) => CallbackStep::ProviderError {
                error: prettify_error(e),
                description: replace_with_space(d, '+'),
            },
            None => CallbackStep::Malformed,
        },
        None => match code {
            Some(c) => CallbackStep::Exchange(String::from_str(c)),
            None => CallbackStep::Malformed,
        },
    }
}

} // verus!
