//! Configuration handed to the core: the identity providers and the reward
//! curve, and the lookup of a provider by name.
use vstd::prelude::*;
use crate::scoring::ScoreConfig;
use crate::text::str_eq;

verus! {

/// The identity providers that a user can log in with.
#[derive(Clone, Copy, Debug, PartialEq, Eq, Structural)]
pub enum Provider {
    Discord,
    Microsoft,
    GitHub,
}

/// Name of each provider, as it stands in requests and stored users.
pub open spec fn name_of(p: Provider) -> Seq<char> {
    match p {
        Provider::Discord => "discord"@,
        Provider::Microsoft => "microsoft"@,
        Provider::GitHub => "github"@,
    }
}

proof fn lemma_names_distinct(p: Provider, q: Provider)
    ensures
        name_of(p) == name_of(q) ==> p == q,
{
    reveal_strlit("discord");
    reveal_strlit("microsoft");
    reveal_strlit("github");
    assert(name_of(Provider::Discord).len() == 7);
    assert(name_of(Provider::Microsoft).len() == 9);
    assert(name_of(Provider::GitHub).len() == 6);
}

impl Provider {
    pub fn name(&self) -> (r: &'static str)
        ensures
            r@ == name_of(*self),
    {
        match self {
            Provider::Discord => "discord",
            Provider::Microsoft => "microsoft",
            Provider::GitHub => "github",
        }
    }

    /// The provider of a given name, if there is one.
    pub fn from_name(name: &str) -> (r: Option<Provider>)
        ensures
            r matches Some(p) ==> name_of(p) == name@,
            r is None ==> forall|p: Provider| name_of(p) != name@,
    {
        if str_eq(name, "discord") {
            Some(Provider::Discord)
        } else if str_eq(name, "microsoft") {
            Some(Provider::Microsoft)
        } else if str_eq(name, "github") {
            Some(Provider::GitHub)
        } else {
            proof {
                reveal_strlit("discord");
                reveal_strlit("microsoft");
                reveal_strlit("github");
                assert forall|p: Provider| name_of(p) != name@ by {
                    match p {
                        Provider::Discord => {},
                        Provider::Microsoft => {},
                        Provider::GitHub => {},
                    }
                }
            }
            None
        }
    }
}

/// Endpoints and credentials of one identity provider.
#[derive(Clone, Debug)]
pub struct OAuth2Config {
    pub enabled: bool,
    pub authorize_url: String,
    pub token_url: String,
    pub user_info_url: String,
    pub client_id: String,
    pub redirect_uri: String,
    pub scope: String,
    pub secret: String,
}

impl OAuth2Config {
    /// A copy with the same fields.
    pub fn duplicate(&self) -> (r: OAuth2Config)
        ensures
            r == *self,
    {
        OAuth2Config {
            enabled: self.enabled,
            authorize_url: self.authorize_url.clone(),
            token_url: self.token_url.clone(),
            user_info_url: self.user_info_url.clone(),
            client_id: self.client_id.clone(),
            redirect_uri: self.redirect_uri.clone(),
            scope: self.scope.clone(),
            secret: self.secret.clone(),
        }
    }
}

/// The configuration of each provider.
#[derive(Clone, Debug)]
pub struct OAuth2Providers {
    pub discord: OAuth2Config,
    pub microsoft: OAuth2Config,
    pub github: OAuth2Config,
}

impl OAuth2Providers {
    pub open spec fn spec_for(&self, p: Provider) -> OAuth2Config {
        match p {
            Provider::Discord => self.discord,
            Provider::Microsoft => self.microsoft,
            Provider::GitHub => self.github,
        }
    }

    pub fn config_for(&self, p: Provider) -> (r: &OAuth2Config)
        ensures
            *r == self.spec_for(p),
    {
        match p {
            Provider::Discord => &self.discord,
            Provider::Microsoft => &self.microsoft,
            Provider::GitHub => &self.github,
        }
    }
}

/// Everything that the application is configured with.
#[derive(Clone, Debug)]
pub struct Config {
    pub hostname: String,
    pub dev_mode: bool,
    pub oauth2: OAuth2Providers,
    pub score: ScoreConfig,
}

/// Why a provider lookup failed.
#[derive(Clone, Copy, Debug, PartialEq, Eq, Structural)]
pub enum ConfigError {
    /// No provider has that name.
    UnknownProvider,
    /// The provider is configured but switched off.
    DisabledProvider,
}

/// The configuration of the provider named `provider_name`.
pub fn get_oauth2_provider_config(providers: &OAuth2Providers, provider_name: &str) -> (r: Result<
    OAuth2Config,
    ConfigError,
>)
    ensures
        r matches Ok(c) ==> exists|p: Provider|
            name_of(p) == provider_name@ && c == providers.spec_for(p),
        r is Err <==> forall|p: Provider| name_of(p) != provider_name@,
        r is Err ==> r == Err::<OAuth2Config, ConfigError>(ConfigError::UnknownProvider),
{
    match Provider::from_name(provider_name) {
        Some(p) => Ok(providers.config_for(p).duplicate()),
        None => Err(ConfigError::UnknownProvider),
    }
}

/// The configuration to log in with through the provider named
/// `provider_name`: a disabled provider is answered as if it did not exist.
pub fn login_provider_config(providers: &OAuth2Providers, provider_name: &str) -> (r: Result<
    OAuth2Config,
    ConfigError,
>)
    ensures
        r matches Ok(c) ==> c.enabled && exists|p: Provider|
            name_of(p) == provider_name@ && c == providers.spec_for(p),
        r is Err <==> forall|p: Provider|
            name_of(p) == provider_name@ ==> !providers.spec_for(p).enabled,
        r == Err::<OAuth2Config, ConfigError>(ConfigError::UnknownProvider) <==> forall|p: Provider|
            name_of(p) != provider_name@,
{
    match Provider::from_name(provider_name) {
        Some(p) => {
            let c = providers.config_for(p);
            proof {
                assert forall|q: Provider| name_of(q) == provider_name@ implies q == p by {
                    lemma_names_distinct(p, q);
                }
            }
            if c.enabled {
                Ok(c.duplicate())
            } else {
                Err(ConfigError::DisabledProvider)
            }
        },
        None => Err(ConfigError::UnknownProvider),
    }
}

} // verus!
