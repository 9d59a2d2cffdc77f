use advent_of_time::config::{
    get_oauth2_provider_config, login_provider_config, ConfigError, OAuth2Config, OAuth2Providers, Provider,
};
use advent_of_time::oauth2::{exchange_token_form, redirect_to_authorize, refresh_token_form, OAuth2Response};
use advent_of_time::session::{
    create_bearer_cookie, create_clear_bearer_cookie, finish_refresh, has_access_token_expired, is_logged_in,
    logout, oauth2_callback_step, record_login, resolve_session, CallbackStep, SessionStep,
};
use advent_of_time::store::UserRepository;
use advent_of_time::user::{GuessData, User};

fn provider(name: &str, enabled: bool) -> OAuth2Config {
    OAuth2Config {
        enabled,
        authorize_url: format!("https://{name}.example/authorize"),
        token_url: format!("https://{name}.example/token"),
        user_info_url: format!("https://{name}.example/me"),
        client_id: format!("{name}-client"),
        redirect_uri: format!("https://game.example/auth/oauth2-redirect/{name}"),
        scope: "identify".to_string(),
        secret: "SECRET-REDACTED".to_string(),
    }
}

fn providers() -> OAuth2Providers {
    OAuth2Providers {
        discord: provider("discord", true),
        microsoft: provider("microsoft", false),
        github: provider("github", true),
    }
}

fn user(id: &str, token: &str, expire: Option<i64>, refresh: Option<&str>) -> User {
    User {
        id: id.to_string(),
        username: format!("name-{id}"),
        oauth_username: format!("account-{id}"),
        guess_data: vec![(1, GuessData::new((1, 2), 5))],
        access_token: token.to_string(),
        access_token_expire_at: expire,
        refresh_token: refresh.map(|s| s.to_string()),
        oauth_provider: Provider::Discord,
        hidden: false,
    }
}

fn response(token: &str, expires_in: Option<u64>, refresh: Option<&str>) -> OAuth2Response {
    OAuth2Response {
        token_type: "Bearer".to_string(),
        access_token: token.to_string(),
        expires_in,
        refresh_token: refresh.map(|s| s.to_string()),
        scope: "identify".to_string(),
    }
}

#[test]
fn provider_lookup_by_name() {
    let p = providers();
    assert_eq!("discord-client", get_oauth2_provider_config(&p, "discord").unwrap().client_id);
    assert_eq!("github-client", get_oauth2_provider_config(&p, "github").unwrap().client_id);
    assert!(get_oauth2_provider_config(&p, "microsoft").is_ok());
    assert_eq!(Err(ConfigError::UnknownProvider), get_oauth2_provider_config(&p, "gitlab").map(|_| ()));
    assert_eq!(Some(Provider::GitHub), Provider::from_name("github"));
    assert_eq!("microsoft", Provider::Microsoft.name());
}

#[test]
fn disabled_provider_cannot_be_used_to_log_in() {
    let p = providers();
    assert!(login_provider_config(&p, "discord").is_ok());
    assert!(login_provider_config(&p, "microsoft").is_err());
    assert!(login_provider_config(&p, "nobody").is_err());
}

#[test]
fn authorize_url_encodes_the_redirect() {
    let url = redirect_to_authorize(&provider("discord", true));
    assert_eq!(
        "https://discord.example/authorize?client_id=discord-client&response_type=code&redirect_uri=https%3A%2F%2Fgame.example%2Fauth%2Foauth2-redirect%2Fdiscord&scope=identify",
        url
    );
}

#[test]
fn token_request_forms() {
    let c = provider("github", true);
    let pairs = |v: Vec<(String, String)>| v.into_iter().map(|(a, b)| format!("{a}={b}")).collect::<Vec<_>>();
    assert_eq!(
        vec![
            "client_id=github-client",
            "client_secret=SECRET-REDACTED",
            "grant_type=authorization_code",
            "code=abc",
            "redirect_uri=https://game.example/auth/oauth2-redirect/github",
        ],
        pairs(exchange_token_form("abc", &c))
    );
    assert_eq!("grant_type=refresh_token", pairs(refresh_token_form("r1", &c))[2]);
    assert_eq!("refresh_token=r1", pairs(refresh_token_form("r1", &c))[3]);
}

#[test]
fn token_margin_is_taken_once_at_storage() {
    let mut u = user("1", "old", Some(10), Some("r0"));
    u.set_auth(&response("new", Some(3600), None), 1000);
    assert_eq!("new", u.access_token);
    assert_eq!(Some(1000 + 3600 - 30), u.access_token_expire_at);
    assert_eq!(Some("r0".to_string()), u.refresh_token);
    u.set_auth(&response("newer", None, Some("r1")), 2000);
    assert_eq!(None, u.access_token_expire_at);
    assert_eq!(Some("r1".to_string()), u.refresh_token);
    u.set_auth(&response("big", Some(u64::MAX), None), 0);
    assert_eq!(Some(i64::MAX), u.access_token_expire_at);
}

#[test]
fn expiry_rules() {
    assert!(!has_access_token_expired(&user("1", "t", None, None), 100));
    assert!(has_access_token_expired(&user("1", "t", None, Some("r")), 100));
    assert!(has_access_token_expired(&user("1", "t", Some(100), None), 100));
    assert!(!has_access_token_expired(&user("1", "t", Some(101), None), 100));
}

#[test]
fn session_resolution() {
    let store = UserRepository::new(vec![
        user("1", "fresh", Some(500), Some("r1")),
        user("2", "stale", Some(50), Some("r2")),
        user("3", "dead", Some(50), None),
        user("4", "forever", None, None),
    ]);
    assert!(matches!(resolve_session(&store, None, 100), SessionStep::Anonymous));
    assert!(matches!(resolve_session(&store, Some("nope"), 100), SessionStep::Anonymous));
    assert!(matches!(resolve_session(&store, Some("fresh"), 100), SessionStep::Authenticated(u) if u.id == "1"));
    assert!(matches!(resolve_session(&store, Some("stale"), 100), SessionStep::NeedsRefresh(u) if u.id == "2"));
    assert!(matches!(resolve_session(&store, Some("dead"), 100), SessionStep::Anonymous));
    assert!(matches!(resolve_session(&store, Some("forever"), 100), SessionStep::Authenticated(_)));
    assert!(is_logged_in(&store, Some("fresh"), 100));
    assert!(!is_logged_in(&store, Some("stale"), 100));
    assert!(!is_logged_in(&store, None, 100));
}

#[test]
fn refresh_of_an_expired_session_is_stored() {
    let mut store = UserRepository::new(vec![user("1", "a", Some(10), Some("r1")), user("2", "stale", Some(50), Some("r2"))]);
    let now = 100;
    let stale = match resolve_session(&store, Some("stale"), now) {
        SessionStep::NeedsRefresh(u) => u,
        _ => panic!("expected a refresh"),
    };
    let refreshed = finish_refresh(&mut store, stale, Some(&response("renewed", Some(3600), None)), now).unwrap();
    assert_eq!("renewed", refreshed.access_token);
    assert!(refreshed.access_token_expire_at.unwrap() > now);
    assert_eq!(Some("r2".to_string()), refreshed.refresh_token);
    let stored = store.get_user_by_id("2").unwrap();
    assert_eq!("renewed", stored.access_token);
    assert_eq!(Some(now + 3600 - 30), stored.access_token_expire_at);
    assert!(matches!(resolve_session(&store, Some("renewed"), now), SessionStep::Authenticated(u) if u.id == "2"));
}

#[test]
fn failed_refresh_changes_nothing() {
    let mut store = UserRepository::new(vec![user("2", "stale", Some(50), Some("r2"))]);
    let stale = store.get_user_by_id("2").unwrap();
    assert!(finish_refresh(&mut store, stale, None, 100).is_none());
    assert_eq!("stale", store.get_user_by_id("2").unwrap().access_token);
    let gone = user("9", "x", Some(1), Some("r"));
    assert!(finish_refresh(&mut store, gone, Some(&response("y", Some(60), None)), 100).is_none());
    assert_eq!(1, store.get_all_users().len());
}

#[test]
fn login_updates_known_players_and_adds_new_ones() {
    let mut store = UserRepository::new(vec![user("1", "old", Some(10), Some("r1"))]);
    let mut again = user("1", "new", Some(999), None);
    again.username = "other-name".to_string();
    again.guess_data = vec![];
    let stored = record_login(&mut store, again);
    assert_eq!("name-1", stored.username);
    assert_eq!("new", stored.access_token);
    assert_eq!(None, stored.refresh_token);
    assert_eq!(1, stored.guess_data.len());
    let fresh = record_login(&mut store, user("2", "t2", None, None));
    assert_eq!("2", fresh.id);
    assert_eq!(2, store.get_all_users().len());
    assert_eq!("new", store.get_user_by_bearer("new").unwrap().access_token);
    assert_eq!("2", store.get_user_by_username("name-2").unwrap().id);
}

#[test]
fn logout_expires_the_session() {
    let mut store = UserRepository::new(vec![user("1", "tok", Some(500), Some("r1"))]);
    let u = store.get_user_by_id("1").unwrap();
    assert!(logout(&mut store, u, 100).is_ok());
    let after = store.get_user_by_id("1").unwrap();
    assert_eq!("", after.access_token);
    assert_eq!(None, after.refresh_token);
    assert_eq!(Some(100), after.access_token_expire_at);
    assert!(matches!(resolve_session(&store, Some(""), 100), SessionStep::Anonymous));
    assert!(logout(&mut store, user("7", "x", None, None), 100).is_err());
}

#[test]
fn store_refuses_duplicates_and_unknown_ids() {
    let mut store = UserRepository::new(vec![]);
    assert!(store.create_user(user("1", "a", None, None)).is_ok());
    assert!(store.create_user(user("1", "b", None, None)).is_err());
    assert!(store.update_user(user("2", "b", None, None)).is_err());
    assert!(store.update_user(user("1", "c", None, None)).is_ok());
    assert_eq!("c", store.get_user_by_id("1").unwrap().access_token);
    store.delete_user(&user("1", "", None, None));
    assert!(store.get_all_users().is_empty());
}

#[test]
fn callback_query_decides_the_next_step() {
    match oauth2_callback_step(Some("access_denied"), Some("The+user+said+no"), None) {
        CallbackStep::ProviderError { error, description } => {
            assert_eq!("Access denied", error);
            assert_eq!("The user said no", description);
        }
        _ => panic!("expected an error page"),
    }
    assert!(matches!(oauth2_callback_step(Some("x"), None, Some("c")), CallbackStep::Malformed));
    assert!(matches!(oauth2_callback_step(None, None, Some("c0de")), CallbackStep::Exchange(c) if c == "c0de"));
    assert!(matches!(oauth2_callback_step(None, Some("d"), None), CallbackStep::Malformed));
}

#[test]
fn session_cookies() {
    let c = create_bearer_cookie(&response("tok", Some(3600), None));
    assert_eq!(("aot-bearer", "tok", Some(3600), None), (c.name.as_str(), c.value.as_str(), c.max_age, c.expires));
    assert_eq!(None, create_bearer_cookie(&response("tok", Some(1 << 40), None)).max_age);
    assert_eq!(None, create_bearer_cookie(&response("tok", None, None)).max_age);
    let clear = create_clear_bearer_cookie();
    assert_eq!(("", Some(0), Some(0)), (clear.value.as_str(), clear.max_age, clear.expires));
}
