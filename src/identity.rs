//! The identity resolver: what each provider says of a player, turned into a
//! player of the game with a stable generated name.
use vstd::prelude::*;
use rand::seq::IndexedRandom;
use rand::SeedableRng;
use crate::config::{OAuth2Providers, Provider};
use crate::oauth2::OAuth2Response;
use crate::user::{with_tokens, User, UserModel};

verus! {

/// The 64-bit hash that std's `DefaultHasher`, with its fixed keys, gives of
/// a string.
pub uninterp spec fn default_hash_of(s: Seq<char>) -> u64;

/// Relies on `std::hash::BuildHasher::hash_one` with
/// `BuildHasherDefault<DefaultHasher>`: std's default hasher with fixed keys,
/// so the hash depends on the string alone.
#[verifier::external_body]
fn default_hash(value: &str) -> (r: u64)
    ensures
        r == default_hash_of(value@),
{
    let builder = std::hash::BuildHasherDefault::<std::collections::hash_map::DefaultHasher>::default();
    std::hash::BuildHasher::hash_one(&builder, value)
}

/// The seed of the generated name of a player, from its provider id.
pub fn str_to_u64seed(value: &str) -> (r: u64)
    ensures
        r == default_hash_of(value@),
{
    default_hash(value)
}

pub open spec fn words_view(v: Seq<String>) -> Seq<Seq<char>> {
    v.map_values(|s: String| s@)
}

/// The noun and the adjective, in that order, that a `StdRng` seeded with
/// `seed` picks from the two lists.
pub uninterp spec fn seeded_words(seed: u64, nouns: Seq<Seq<char>>, adjectives: Seq<Seq<char>>) -> (
    Seq<char>,
    Seq<char>,
);

/// A noun and an adjective picked for a generated name.
pub struct WordPair {
    pub noun: String,
    pub adjective: String,
}

/// Relies on rand's `StdRng::seed_from_u64` and `IndexedRandom::choose`: a
/// generator seeded with `seed` picks a noun and then an adjective, each one
/// of its list; none from an empty list.
#[verifier::external_body]
fn pick_seeded_words(seed: u64, nouns: &Vec<String>, adjectives: &Vec<String>) -> (r: Option<WordPair>)
    ensures
        r is None ==> nouns@.len() == 0 || adjectives@.len() == 0,
        r is Some ==> nouns@.len() > 0 && adjectives@.len() > 0,
        r matches Some(p) ==> words_view(nouns@).contains(p.noun@),
        r matches Some(p) ==> words_view(adjectives@).contains(p.adjective@),
        r matches Some(p) ==> p.noun@ == seeded_words(seed, words_view(nouns@), words_view(adjectives@)).0,
        r matches Some(p) ==> p.adjective@ == seeded_words(seed, words_view(nouns@), words_view(adjectives@)).1,
{
    let mut rng = rand::rngs::StdRng::seed_from_u64(seed);
    let noun = nouns.choose(&mut rng)?;
    let adjective = adjectives.choose(&mut rng)?;
    Some(WordPair { noun: noun.clone(), adjective: adjective.clone() })
}

/// A generated name: the adjective, a dash, the noun.
pub open spec fn username_of(noun: Seq<char>, adjective: Seq<char>) -> Seq<char> {
    adjective + "-"@ + noun
}

/// The generated name made of `noun` and `adjective`.
pub fn username_from_words(noun: &str, adjective: &str) -> (r: String)
    ensures
        r@ == username_of(noun@, adjective@),
{
    let mut r = String::from_str(adjective);
    r.append("-");
    r.append(noun);
    r
}

/// The name generated from `seed` with the two word lists; `None` where a
/// list is empty.
pub fn generate_username(seed: u64, nouns: &Vec<String>, adjectives: &Vec<String>) -> (r: Option<
    String,
>)
    ensures
        r is Some <==> nouns@.len() > 0 && adjectives@.len() > 0,
        r matches Some(s) ==> s@ == username_of(
            seeded_words(seed, words_view(nouns@), words_view(adjectives@)).0,
            seeded_words(seed, words_view(nouns@), words_view(adjectives@)).1,
        ),
{
    match pick_seeded_words(seed, nouns, adjectives) {
        Some(p) => Some(username_from_words(p.noun.as_str(), p.adjective.as_str())),
        None => None,
    }
}

/// Why a provider's profile could not become a player.
#[derive(Clone, Copy, Debug, PartialEq, Eq, Structural)]
pub enum IdentityError {
    /// The profile lacks the account name.
    MissingAccountName,
    /// A word list for generated names is empty.
    NoWords,
}

/// A new player: its ids and names, no guesses, shown on the leaderboard, and
/// the tokens of `resp` received at `now`.
pub open spec fn new_player(
    id: Seq<char>,
    username: Seq<char>,
    oauth_username: Seq<char>,
    provider: Provider,
    resp: OAuth2Response,
    now: i64,
) -> UserModel {
    with_tokens(
        UserModel {
            id,
            username,
            oauth_username,
            guesses: Seq::empty(),
            access_token: Seq::empty(),
            access_token_expire_at: None,
            refresh_token: None,
            oauth_provider: provider,
            hidden: false,
        },
        resp,
        now,
    )
}

/// Builds the new player of id `id`, named from `seed`.
fn build_user(
    id: String,
    seed: u64,
    oauth_username: String,
    provider: Provider,
    oauth2_response: &OAuth2Response,
    now: i64,
    nouns: &Vec<String>,
    adjectives: &Vec<String>,
) -> (r: Result<User, IdentityError>)
    ensures
        r is Err <==> !(nouns@.len() > 0 && adjectives@.len() > 0),
        r is Err ==> r == Err::<User, IdentityError>(IdentityError::NoWords),
        r matches Ok(u) ==> u@ == new_player(
            id@,
            username_of(
                seeded_words(seed, words_view(nouns@), words_view(adjectives@)).0,
                seeded_words(seed, words_view(nouns@), words_view(adjectives@)).1,
            ),
            oauth_username@,
            provider,
            *oauth2_response,
            now,
        ),
{
    match generate_username(seed, nouns, adjectives) {
        Some(username) => Ok(new_app_user(id, username, oauth_username, provider, oauth2_response, now)),
        None => Err(IdentityError::NoWords),
    }
}

/// The new player of id `id` and generated name `username`, holding the
/// tokens of `oauth2_response` received at `now`.
pub fn new_app_user(
    id: String,
    username: String,
    oauth_username: String,
    provider: Provider,
    oauth2_response: &OAuth2Response,
    now: i64,
) -> (r: User)
    ensures
        r@ == new_player(id@, username@, oauth_username@, provider, *oauth2_response, now),
{
    let mut user = User {
        id,
        username,
        oauth_username,
        guess_data: Vec::new(),
        access_token: String::new(),
        access_token_expire_at: None,
        refresh_token: None,
        oauth_provider: provider,
        hidden: false,
    };
    proof {
        assert(user@.guesses =~= Seq::<(u32, crate::user::GuessData)>::empty());
    }
    user.set_auth(oauth2_response, now);
    user
}

/// A Discord user, as its API describes it.
#[derive(Clone, Debug)]
pub struct DiscordUserResponse {
    pub id: String,
    pub username: String,
    pub discriminator: String,
    pub avatar: Option<String>,
    pub bot: Option<bool>,
    pub system: Option<bool>,
    pub mfa_enabled: Option<bool>,
    pub locale: Option<String>,
    pub verified: Option<bool>,
    pub email: Option<String>,
    pub flags: Option<u64>,
    pub premium_type: Option<u8>,
    pub public_flags: Option<u64>,
}

/// Turns Discord profiles into players.
pub struct DiscordUserInfoHandler;

impl DiscordUserInfoHandler {
    /// Where the profile of the token's owner is read.
    pub fn user_info_url(&self, providers: &OAuth2Providers) -> (r: String)
        ensures
            r@ == providers.discord.user_info_url@,
    {
        providers.discord.user_info_url.clone()
    }

    /// The player of `profile`, named from the hash of its Discord id.
    pub fn create_app_user(
        &self,
        profile: &DiscordUserResponse,
        oauth2_response: &OAuth2Response,
        now: i64,
        nouns: &Vec<String>,
        adjectives: &Vec<String>,
    ) -> (r: Result<User, IdentityError>)
        ensures
            r is Err <==> !(nouns@.len() > 0 && adjectives@.len() > 0),
            r matches Ok(u) ==> u@ == new_player(
                profile.id@,
                username_of(
                    seeded_words(default_hash_of(profile.id@), words_view(nouns@), words_view(adjectives@)).0,
                    seeded_words(default_hash_of(profile.id@), words_view(nouns@), words_view(adjectives@)).1,
                ),
                profile.username@,
                Provider::Discord,
                *oauth2_response,
                now,
            ),
    {
        let seed = str_to_u64seed(profile.id.as_str());
        build_user(
            profile.id.clone(),
            seed,
            profile.username.clone(),
            Provider::Discord,
            oauth2_response,
            now,
            nouns,
            adjectives,
        )
    }
}

/// A Microsoft account, as the Graph API describes it.
#[derive(Clone, Debug)]
pub struct MicrosoftUserResponse {
    pub id: String,
    pub display_name: Option<String>,
    pub given_name: Option<String>,
    pub surname: Option<String>,
    pub user_principal_name: Option<String>,
    pub mail: Option<String>,
    pub job_title: Option<String>,
    pub mobile_phone: Option<String>,
    pub office_location: Option<String>,
    pub preferred_language: Option<String>,
}

/// Turns Microsoft profiles into players.
pub struct MicrosoftUserInfoHandler;

impl MicrosoftUserInfoHandler {
    /// Where the profile of the token's owner is read.
    pub fn user_info_url(&self, providers: &OAuth2Providers) -> (r: String)
        ensures
            r@ == providers.microsoft.user_info_url@,
    {
        providers.microsoft.user_info_url.clone()
    }

    /// The player of `profile`, named from the hash of its Microsoft id; the
    /// account name is the user principal name, which must be given.
    pub fn create_app_user(
        &self,
        profile: &MicrosoftUserResponse,
        oauth2_response: &OAuth2Response,
        now: i64,
        nouns: &Vec<String>,
        adjectives: &Vec<String>,
    ) -> (r: Result<User, IdentityError>)
        ensures
            profile.user_principal_name is None ==> r == Err::<User, IdentityError>(
                IdentityError::MissingAccountName,
            ),
            profile.user_principal_name matches Some(name) ==> (r is Err <==> !(nouns@.len() > 0
                && adjectives@.len() > 0)) && (r matches Ok(u) ==> u@ == new_player(
                profile.id@,
                username_of(
                    seeded_words(default_hash_of(profile.id@), words_view(nouns@), words_view(adjectives@)).0,
                    seeded_words(default_hash_of(profile.id@), words_view(nouns@), words_view(adjectives@)).1,
                ),
                name@,
                Provider::Microsoft,
                *oauth2_response,
                now,
            )),
    {
        let name = match &profile.user_principal_name {
            Some(n) => n.clone(),
            None => {
                return Err(IdentityError::MissingAccountName);
            },
        };
        let seed = str_to_u64seed(profile.id.as_str());
        build_user(
            profile.id.clone(),
            seed,
            name,
            Provider::Microsoft,
            oauth2_response,
            now,
            nouns,
            adjectives,
        )
    }
}

/// The plan of a GitHub account.
#[derive(Clone, Debug)]
pub struct Plan {
    pub name: String,
    pub space: u64,
    pub private_repos: u64,
    pub collaborators: u64,
}

/// A GitHub user, as its API describes it; the two dates are kept as the
/// RFC 3339 text that the API gives.
#[derive(Clone, Debug)]
pub struct GitHubUserResponse {
    pub login: String,
    pub id: u64,
    pub node_id: String,
    pub avatar_url: String,
    pub gravatar_id: String,
    pub url: String,
    pub html_url: String,
    pub followers_url: String,
    pub following_url: String,
    pub gists_url: String,
    pub starred_url: String,
    pub subscriptions_url: String,
    pub organizations_url: String,
    pub repos_url: String,
    pub events_url: String,
    pub received_events_url: String,
    pub user_type: String,
    pub site_admin: bool,
    pub name: Option<String>,
    pub company: Option<String>,
    pub blog: Option<String>,
    pub location: Option<String>,
    pub email: Option<String>,
    pub hireable: Option<bool>,
    pub bio: Option<String>,
    pub twitter_username: Option<String>,
    pub public_repos: u64,
    pub public_gists: u64,
    pub followers: u64,
    pub following: u64,
    pub created_at: String,
    pub updated_at: String,
    pub private_gists: u64,
    pub total_private_repos: u64,
    pub owned_private_repos: u64,
    pub disk_usage: u64,
    pub collaborators: u64,
    pub two_factor_authentication: bool,
    pub plan: Option<Plan>,
}

impl GitHubUserResponse {
    /// Where GitHub gives the profile of the token's owner.
    pub fn user_info_url() -> (r: &'static str)
        ensures
            r@ == "https://api.github.com/user"@,
    {
        "https://api.github.com/user"
    }

    /// The player of this profile, named from its numeric GitHub id itself.
    pub fn create_app_user(
        &self,
        oauth2_response: &OAuth2Response,
        now: i64,
        nouns: &Vec<String>,
        adjectives: &Vec<String>,
    ) -> (r: Result<User, IdentityError>)
        ensures
            r is Err <==> !(nouns@.len() > 0 && adjectives@.len() > 0),
            r matches Ok(u) ==> u@ == new_player(
                crate::user::decimal_digits(self.id as nat),
                username_of(
                    seeded_words(self.id, words_view(nouns@), words_view(adjectives@)).0,
                    seeded_words(self.id, words_view(nouns@), words_view(adjectives@)).1,
                ),
                self.login@,
                Provider::GitHub,
                *oauth2_response,
                now,
            ),
    {
        build_user(
            crate::user::decimal_string(self.id),
            self.id,
            self.login.clone(),
            Provider::GitHub,
            oauth2_response,
            now,
            nouns,
            adjectives,
        )
    }
}

} // verus!
