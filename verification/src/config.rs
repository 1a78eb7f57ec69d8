//! Process-wide configuration, built once at startup from the settings the
//! environment provides and handed on by reference.

use crate::text::{parse_decimal, parsed_decimal, str_equal};
use vstd::prelude::*;
use vstd::string::*;

verus! {

/// Token lifetime in seconds where the environment names none.
pub const DEFAULT_JWT_EXPIRES_IN: u64 = 86400;

/// Port the server binds where the environment names none.
pub const DEFAULT_PORT: u16 = 3000;

/// Where the server listens.
#[derive(Debug, Clone, PartialEq, Eq)]
pub struct ServerConfig {
    pub host: String,
    pub port: u16,
}

/// The server's settings.
#[derive(Debug, Clone, PartialEq, Eq)]
pub struct Config {
    pub server: ServerConfig,
}

/// The settings of the token service: the signing secret and the lifetime
/// of a token in seconds.
#[derive(Debug, Clone, PartialEq, Eq)]
pub struct AuthConfig {
    pub jwt_secret: String,
    pub jwt_expires_in: u64,
}

/// Why a configuration could not be built.
#[derive(Debug, Clone, PartialEq, Eq)]
pub enum ConfigError {
    /// `APP_SERVER_PORT` is not a decimal number up to 65535; holds its text.
    InvalidPort(String),
    /// `JWT_SECRET` is not set.
    MissingSecret,
    /// `JWT_EXPIRES_IN` is not a decimal number of seconds; holds its text.
    InvalidLifetime(String),
}

pub struct ServerConfigView {
    pub host: Seq<char>,
    pub port: u16,
}

pub struct ConfigView {
    pub server: ServerConfigView,
}

pub struct AuthConfigView {
    pub jwt_secret: Seq<char>,
    pub jwt_expires_in: u64,
}

pub enum ConfigErrorView {
    InvalidPort(Seq<char>),
    MissingSecret,
    InvalidLifetime(Seq<char>),
}

impl View for ServerConfig {
    type V = ServerConfigView;

    open spec fn view(&self) -> ServerConfigView {
        ServerConfigView { host: self.host@, port: self.port }
    }
}

impl View for Config {
    type V = ConfigView;

    open spec fn view(&self) -> ConfigView {
        ConfigView { server: self.server@ }
    }
}

impl View for AuthConfig {
    type V = AuthConfigView;

    open spec fn view(&self) -> AuthConfigView {
        AuthConfigView { jwt_secret: self.jwt_secret@, jwt_expires_in: self.jwt_expires_in }
    }
}

impl View for ConfigError {
    type V = ConfigErrorView;

    open spec fn view(&self) -> ConfigErrorView {
        match self {
            ConfigError::InvalidPort(text) => ConfigErrorView::InvalidPort(text@),
            ConfigError::MissingSecret => ConfigErrorView::MissingSecret,
            ConfigError::InvalidLifetime(text) => ConfigErrorView::InvalidLifetime(text@),
        }
    }
}

/// The settings as pairs of name and value, each taken by its characters.
pub open spec fn settings(vars: Seq<(String, String)>) -> Seq<(Seq<char>, Seq<char>)> {
    vars.map_values(|pair: (String, String)| (pair.0@, pair.1@))
}

/// The value of the first setting called `key`, if there is one.
pub open spec fn lookup(vars: Seq<(Seq<char>, Seq<char>)>, key: Seq<char>) -> Option<Seq<char>>
    decreases vars.len(),
{
    if vars.len() == 0 {
        None
    } else if vars[0].0 == key {
        Some(vars[0].1)
    } else {
        lookup(vars.drop_first(), key)
    }
}

/// The port that a setting's text names: a decimal number up to 65535.
pub open spec fn parsed_port(text: Seq<char>) -> Option<u16> {
    match parsed_decimal(text) {
        Some(n) => if n <= u16::MAX {
            Some(n as u16)
        } else {
            None
        },
        None => None,
    }
}

/// What [`Config::load`] makes of the settings: the host and port named by
/// `APP_SERVER_HOST` and `APP_SERVER_PORT`, `localhost` and 3000 where they
/// are absent, and an error for a port that is no port.
pub open spec fn loaded_config(
    vars: Seq<(Seq<char>, Seq<char>)>,
) -> Result<ConfigView, ConfigErrorView> {
    let host = match lookup(vars, "APP_SERVER_HOST"@) {
        Some(h) => h,
        None => "localhost"@,
    };
    match lookup(vars, "APP_SERVER_PORT"@) {
        None => Ok(ConfigView { server: ServerConfigView { host, port: DEFAULT_PORT } }),
        Some(text) => match parsed_port(text) {
            Some(port) => Ok(ConfigView { server: ServerConfigView { host, port } }),
            None => Err(ConfigErrorView::InvalidPort(text)),
        },
    }
}

/// What [`AuthConfig::from_env`] makes of the settings: the secret named by
/// `JWT_SECRET`, which must be there, and the lifetime named by
/// `JWT_EXPIRES_IN`, one day where it is absent.
pub open spec fn loaded_auth_config(
    vars: Seq<(Seq<char>, Seq<char>)>,
) -> Result<AuthConfigView, ConfigErrorView> {
    match lookup(vars, "JWT_SECRET"@) {
        None => Err(ConfigErrorView::MissingSecret),
        Some(jwt_secret) => match lookup(vars, "JWT_EXPIRES_IN"@) {
            None => Ok(AuthConfigView { jwt_secret, jwt_expires_in: DEFAULT_JWT_EXPIRES_IN }),
            Some(text) => match parsed_decimal(text) {
                Some(jwt_expires_in) => Ok(AuthConfigView { jwt_secret, jwt_expires_in }),
                None => Err(ConfigErrorView::InvalidLifetime(text)),
            },
        },
    }
}

/// Finds the value of the first setting called `key`.
pub fn find_setting<'a>(vars: &'a Vec<(String, String)>, key: &str) -> (value: Option<&'a str>)
    ensures
        match value {
            Some(v) => lookup(settings(vars@), key@) == Some(v@),
            None => lookup(settings(vars@), key@) is None,
        },
{
    let mut i: usize = 0;
    assert(settings(vars@).skip(0) =~= settings(vars@));
    while i < vars.len()
        invariant
            i <= vars.len(),
            lookup(settings(vars@), key@) == lookup(settings(vars@).skip(i as int), key@),
        decreases vars.len() - i,
    {
        let ghost rest = settings(vars@).skip(i as int);
        assert(rest.drop_first() =~= settings(vars@).skip(i + 1));
        if str_equal(vars[i].0.as_str(), key) {
            return Some(vars[i].1.as_str());
        }
        i = i + 1;
    }
    None
}

/// Reads a port number: a decimal number up to 65535.
pub fn parse_port(text: &str) -> (port: Option<u16>)
    ensures
        port == parsed_port(text@),
{
    match parse_decimal(text) {
        Some(n) => if n <= 65535 {
            Some(n as u16)
        } else {
            None
        },
        None => None,
    }
}

impl Config {
    /// Builds the server's settings from the environment's variables, given
    /// as pairs of name and value.
    pub fn load(vars: &Vec<(String, String)>) -> (loaded: Result<Config, ConfigError>)
        ensures
            match loaded {
                Ok(config) => loaded_config(settings(vars@)) == Ok::<ConfigView, ConfigErrorView>(
                    config@,
                ),
                Err(e) => loaded_config(settings(vars@)) == Err::<ConfigView, ConfigErrorView>(e@),
            },
    {
        let host = match find_setting(vars, "APP_SERVER_HOST") {
            Some(h) => String::from_str(h),
            None => String::from_str("localhost"),
        };
        match find_setting(vars, "APP_SERVER_PORT") {
            None => Ok(Config { server: ServerConfig { host, port: DEFAULT_PORT } }),
            Some(text) => match parse_port(text) {
                Some(port) => Ok(Config { server: ServerConfig { host, port } }),
                None => Err(ConfigError::InvalidPort(String::from_str(text))),
            },
        }
    }
}

impl AuthConfig {
    /// Builds the token service's settings from the environment's
    /// variables, given as pairs of name and value.
    pub fn from_env(vars: &Vec<(String, String)>) -> (loaded: Result<AuthConfig, ConfigError>)
        ensures
            match loaded {
                Ok(config) => loaded_auth_config(settings(vars@)) == Ok::<
                    AuthConfigView,
                    ConfigErrorView,
                >(config@),
                Err(e) => loaded_auth_config(settings(vars@)) == Err::<
                    AuthConfigView,
                    ConfigErrorView,
                >(e@),
            },
    {
        let jwt_secret = match find_setting(vars, "JWT_SECRET") {
            Some(secret) => String::from_str(secret),
            None => {
                return Err(ConfigError::MissingSecret);
            },
        };
        match find_setting(vars, "JWT_EXPIRES_IN") {
            None => Ok(AuthConfig { jwt_secret, jwt_expires_in: DEFAULT_JWT_EXPIRES_IN }),
            Some(text) => match parse_decimal(text) {
                Some(jwt_expires_in) => Ok(AuthConfig { jwt_secret, jwt_expires_in }),
                None => Err(ConfigError::InvalidLifetime(String::from_str(text))),
            },
        }
    }
}

impl ConfigError {
    /// A description of the error.
    pub fn to_string(&self) -> (text: String)
        ensures
            text@ == match self@ {
                ConfigErrorView::InvalidPort(t) => "invalid value for server.port: "@ + t,
                ConfigErrorView::MissingSecret => "JWT_SECRET must be set"@,
                ConfigErrorView::InvalidLifetime(t) => "invalid value for JWT_EXPIRES_IN: "@ + t,
            },
    {
        match self {
            ConfigError::InvalidPort(t) => String::from_str(
                "invalid value for server.port: ",
            ).concat(t.as_str()),
            ConfigError::MissingSecret => String::from_str("JWT_SECRET must be set"),
            ConfigError::InvalidLifetime(t) => String::from_str(
                "invalid value for JWT_EXPIRES_IN: ",
            ).concat(t.as_str()),
        }
    }
}

} // verus!
