use advent_of_time::calendar::UtcDateTime;
use advent_of_time::config::{OAuth2Config, OAuth2Providers, Provider};
use advent_of_time::identity::{
    generate_username, str_to_u64seed, DiscordUserInfoHandler, DiscordUserResponse,
    GitHubUserResponse, IdentityError, MicrosoftUserInfoHandler, MicrosoftUserResponse,
};
use advent_of_time::oauth2::OAuth2Response;
use advent_of_time::picture::{Picture, PictureMetaRepository};
use advent_of_time::profile::{get_user_guess_days, load_day_view};
use advent_of_time::scoring::ScoreConfig;
use advent_of_time::user::{GuessData, User};

fn words() -> (Vec<String>, Vec<String>) {
    (
        vec!["bun".to_string(), "owl".to_string(), "fig".to_string()],
        vec!["many".to_string(), "shy".to_string(), "odd".to_string()],
    )
}

fn response() -> OAuth2Response {
    OAuth2Response {
        token_type: "Bearer".to_string(),
        access_token: "at".to_string(),
        expires_in: Some(600),
        refresh_token: Some("rt".to_string()),
        scope: "identify".to_string(),
    }
}

fn discord_profile(id: &str) -> DiscordUserResponse {
    DiscordUserResponse {
        id: id.to_string(),
        username: "dora".to_string(),
        discriminator: "0".to_string(),
        avatar: None,
        bot: None,
        system: None,
        mfa_enabled: Some(true),
        locale: Some("fr".to_string()),
        verified: None,
        email: None,
        flags: None,
        premium_type: None,
        public_flags: None,
    }
}

fn microsoft_profile(upn: Option<&str>) -> MicrosoftUserResponse {
    MicrosoftUserResponse {
        id: "ms-1".to_string(),
        display_name: None,
        given_name: None,
        surname: None,
        user_principal_name: upn.map(|s| s.to_string()),
        mail: None,
        job_title: None,
        mobile_phone: None,
        office_location: None,
        preferred_language: None,
    }
}

fn github_profile() -> GitHubUserResponse {
    let s = |x: &str| x.to_string();
    GitHubUserResponse {
        login: s("octo"),
        id: 583231,
        node_id: s("n"),
        avatar_url: s(""),
        gravatar_id: s(""),
        url: s(""),
        html_url: s(""),
        followers_url: s(""),
        following_url: s(""),
        gists_url: s(""),
        starred_url: s(""),
        subscriptions_url: s(""),
        organizations_url: s(""),
        repos_url: s(""),
        events_url: s(""),
        received_events_url: s(""),
        user_type: s("User"),
        site_admin: false,
        name: None,
        company: None,
        blog: None,
        location: None,
        email: None,
        hireable: None,
        bio: None,
        twitter_username: None,
        public_repos: 1,
        public_gists: 0,
        followers: 0,
        following: 0,
        created_at: s("2011-01-25T18:44:36Z"),
        updated_at: s("2011-01-25T18:44:36Z"),
        private_gists: 0,
        total_private_repos: 0,
        owned_private_repos: 0,
        disk_usage: 0,
        collaborators: 0,
        two_factor_authentication: true,
        plan: None,
    }
}

#[test]
fn discord_profile_becomes_a_player() {
    let (nouns, adjectives) = words();
    let u = DiscordUserInfoHandler.create_app_user(&discord_profile("80351110224678912"), &response(), 1000, &nouns, &adjectives).unwrap();
    assert_eq!("80351110224678912", u.id);
    assert_eq!("dora", u.oauth_username);
    assert_eq!(Provider::Discord, u.oauth_provider);
    assert_eq!(generate_username(str_to_u64seed("80351110224678912"), &nouns, &adjectives), Some(u.username.clone()));
    assert_eq!("at", u.access_token);
    assert_eq!(Some(1000 + 600 - 30), u.access_token_expire_at);
    assert_eq!(Some("rt".to_string()), u.refresh_token);
    assert!(u.guess_data.is_empty() && !u.hidden);
    let again = DiscordUserInfoHandler.create_app_user(&discord_profile("80351110224678912"), &response(), 5, &nouns, &adjectives).unwrap();
    assert_eq!(u.username, again.username);
    assert_eq!(Err(IdentityError::NoWords), DiscordUserInfoHandler.create_app_user(&discord_profile("1"), &response(), 5, &vec![], &adjectives).map(|u| u.id));
}

#[test]
fn microsoft_profile_needs_an_account_name() {
    let (nouns, adjectives) = words();
    let h = MicrosoftUserInfoHandler;
    let u = h.create_app_user(&microsoft_profile(Some("me@contoso.com")), &response(), 0, &nouns, &adjectives).unwrap();
    assert_eq!("me@contoso.com", u.oauth_username);
    assert_eq!(Provider::Microsoft, u.oauth_provider);
    assert_eq!(Err(IdentityError::MissingAccountName), h.create_app_user(&microsoft_profile(None), &response(), 0, &nouns, &adjectives).map(|u| u.id));
}

#[test]
fn github_profile_is_named_from_its_numeric_id() {
    let (nouns, adjectives) = words();
    let u = github_profile().create_app_user(&response(), 0, &nouns, &adjectives).unwrap();
    assert_eq!("583231", u.id);
    assert_eq!("octo", u.oauth_username);
    assert_eq!(generate_username(583231, &nouns, &adjectives), Some(u.username));
    assert_eq!("https://api.github.com/user", GitHubUserResponse::user_info_url());
}

#[test]
fn user_info_urls_come_from_the_configuration() {
    let c = |n: &str| OAuth2Config {
        enabled: true,
        authorize_url: String::new(),
        token_url: String::new(),
        user_info_url: format!("https://{n}/me"),
        client_id: String::new(),
        redirect_uri: String::new(),
        scope: String::new(),
        secret: String::new(),
    };
    let p = OAuth2Providers { discord: c("d"), microsoft: c("m"), github: c("g") };
    assert_eq!("https://d/me", DiscordUserInfoHandler.user_info_url(&p));
    assert_eq!("https://m/me", MicrosoftUserInfoHandler.user_info_url(&p));
}

#[test]
fn profile_lists_the_days_so_far() {
    let cfg = ScoreConfig::new(200, 3, 4, 1440).unwrap();
    let pics = PictureMetaRepository::new(vec![Picture {
        id: 2,
        path: "2.jpg".to_string(),
        original_date: "1999".to_string(),
        time_taken: "09:00".to_string(),
        location: Some("Oslo".to_string()),
    }]);
    let mut u = User {
        id: "1".to_string(),
        username: "u".to_string(),
        oauth_username: "u".to_string(),
        guess_data: vec![(2, GuessData::new((9, 0), 0))],
        access_token: String::new(),
        access_token_expire_at: None,
        refresh_token: None,
        oauth_provider: Provider::GitHub,
        hidden: false,
    };
    let now = UtcDateTime { year: 2025, month: 12, day: 3, hour: 12, minute: 0, second: 0 };
    let days = get_user_guess_days(&cfg, &pics, &u, &now).unwrap();
    assert_eq!(3, days.len());
    assert!(!days[0].guessed && days[0].time.is_empty() && days[0].points == 0);
    assert!(days[1].guessed);
    assert_eq!("09:00", days[1].time);
    assert_eq!(Some("09:00".to_string()), days[1].real_time);
    assert_eq!(200, days[1].points);
    let late = UtcDateTime { day: 31, ..now };
    assert_eq!(25, get_user_guess_days(&cfg, &pics, &u, &late).unwrap().len());

    let view = load_day_view(&cfg, &pics, 2, Some(&u)).unwrap();
    assert_eq!("/day-pic/2", view.img_src);
    assert_eq!("Image for day 2", view.img_alt);
    assert_eq!(Some("Oslo".to_string()), view.location_hint);
    assert_eq!(Some("09:00".to_string()), view.real_time);
    assert_eq!(200, view.guess_data.unwrap().points);
    let anonymous = load_day_view(&cfg, &pics, 2, None).unwrap();
    assert!(anonymous.guess_data.is_none() && anonymous.real_time.is_none());
    assert!(load_day_view(&cfg, &pics, 5, None).is_none());

    u.guess_data.push((1, GuessData::new((9, 0), 0)));
    assert!(get_user_guess_days(&cfg, &pics, &u, &now).is_none());
}
