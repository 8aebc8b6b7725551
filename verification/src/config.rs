use vstd::prelude::*;
use vstd::string::*;
use crate::text::{parse_i64, parse_u16, spec_parse_i64, spec_parse_u16};
use once_cell::sync::OnceCell;

verus! {

#[verifier::external_type_specification]
#[verifier::external_body]
#[verifier::reject_recursive_types(T)]
pub struct ExOnceCell<T>(OnceCell<T>);

#[derive(Debug, Clone)]
pub struct AppConfig {
    pub server: ServerConfig,
    pub database: DatabaseConfig,
    pub jwt: JwtConfig,
    pub wechat: WechatConfig,
}

#[derive(Debug, Clone)]
pub struct ServerConfig {
    pub host: String,
    pub port: u16,
}

#[derive(Debug, Clone)]
pub struct DatabaseConfig {
    pub url: String,
}

#[derive(Debug, Clone)]
pub struct JwtConfig {
    pub secret: String,
    /// How long a token stays valid, in seconds.
    pub expires_in: i64,
}

#[derive(Debug, Clone)]
pub struct WechatConfig {
    pub appid: String,
    pub secret: String,
}

/// The settings as read from the process environment: `None` where a variable
/// is unset or not valid unicode.
#[derive(Debug, Clone)]
pub struct EnvVars {
    pub server_host: Option<String>,
    pub server_port: Option<String>,
    pub database_url: Option<String>,
    pub jwt_secret: Option<String>,
    pub jwt_expires_in: Option<String>,
    pub wechat_appid: Option<String>,
    pub wechat_secret: Option<String>,
}

/// Why the settings do not make a configuration.
#[derive(Debug, Clone, Copy, PartialEq, Eq)]
pub enum ConfigError {
    InvalidPort,
    MissingDatabaseUrl,
    InvalidExpiresIn,
    MissingWechatAppid,
    MissingWechatSecret,
}

pub open spec fn opt_text_or(v: Option<String>, default: Seq<char>) -> Seq<char> {
    match v {
        Some(s) => s@,
        None => default,
    }
}

pub open spec fn host_text(vars: EnvVars) -> Seq<char> {
    opt_text_or(vars.server_host, "0.0.0.0"@)
}

pub open spec fn port_text(vars: EnvVars) -> Seq<char> {
    opt_text_or(vars.server_port, "3000"@)
}

pub open spec fn secret_text(vars: EnvVars) -> Seq<char> {
    opt_text_or(vars.jwt_secret, "default-secret-key"@)
}

pub open spec fn expires_text(vars: EnvVars) -> Seq<char> {
    opt_text_or(vars.jwt_expires_in, "86400"@)
}

/// The first setting, in the order server, database, token, WeChat, that is
/// missing or malformed.
pub open spec fn spec_config_error(vars: EnvVars) -> Option<ConfigError> {
    if spec_parse_u16(port_text(vars)) is None {
        Some(ConfigError::InvalidPort)
    } else if vars.database_url is None {
        Some(ConfigError::MissingDatabaseUrl)
    } else if spec_parse_i64(expires_text(vars)) is None {
        Some(ConfigError::InvalidExpiresIn)
    } else if vars.wechat_appid is None {
        Some(ConfigError::MissingWechatAppid)
    } else if vars.wechat_secret is None {
        Some(ConfigError::MissingWechatSecret)
    } else {
        None
    }
}

/// `config` holds exactly the settings `vars`, with the defaults where they are unset.
pub open spec fn config_from_vars(vars: EnvVars, config: AppConfig) -> bool {
    &&& config.server.host@ == host_text(vars)
    &&& spec_parse_u16(port_text(vars)) == Some(config.server.port)
    &&& vars.database_url matches Some(url) && config.database.url@ == url@
    &&& config.jwt.secret@ == secret_text(vars)
    &&& spec_parse_i64(expires_text(vars)) == Some(config.jwt.expires_in)
    &&& vars.wechat_appid matches Some(appid) && config.wechat.appid@ == appid@
    &&& vars.wechat_secret matches Some(secret) && config.wechat.secret@ == secret@
}

impl ConfigError {
    pub open spec fn spec_message(self) -> Seq<char> {
        match self {
            ConfigError::InvalidPort => "SERVER_PORT must be a valid port number"@,
            ConfigError::MissingDatabaseUrl => "DATABASE_URL must be set"@,
            ConfigError::InvalidExpiresIn => "JWT_EXPIRES_IN must be a valid number"@,
            ConfigError::MissingWechatAppid => "WECHAT_APPID must be set"@,
            ConfigError::MissingWechatSecret => "WECHAT_SECRET must be set"@,
        }
    }

    /// The message with which start-up stops on this error.
    pub fn message(&self) -> (r: String)
        ensures
            r@ == self.spec_message(),
    {
        match self {
            ConfigError::InvalidPort => String::from_str("SERVER_PORT must be a valid port number"),
            ConfigError::MissingDatabaseUrl => String::from_str("DATABASE_URL must be set"),
            ConfigError::InvalidExpiresIn => String::from_str("JWT_EXPIRES_IN must be a valid number"),
            ConfigError::MissingWechatAppid => String::from_str("WECHAT_APPID must be set"),
            ConfigError::MissingWechatSecret => String::from_str("WECHAT_SECRET must be set"),
        }
    }
}

fn text_or(v: &Option<String>, default: &str) -> (r: String)
    ensures
        r@ == opt_text_or(*v, default@),
{
    match v {
        Some(s) => s.clone(),
        None => String::from_str(default),
    }
}

impl AppConfig {
    /// Builds the configuration from the environment's settings, with the defaults
    /// `0.0.0.0`, `3000`, `default-secret-key` and `86400` for the server host, the
    /// server port, the token secret and the token lifetime.
    pub fn from_env_vars(vars: &EnvVars) -> (r: Result<AppConfig, ConfigError>)
        ensures
            r is Err <==> spec_config_error(*vars) is Some,
            r matches Err(e) ==> spec_config_error(*vars) == Some(e),
            r matches Ok(c) ==> config_from_vars(*vars, c),
    {
        let host = text_or(&vars.server_host, "0.0.0.0");
        let port_str = text_or(&vars.server_port, "3000");
        let port = match parse_u16(port_str.as_str()) {
            Some(p) => p,
            None => return Err(ConfigError::InvalidPort),
        };
        let url = match &vars.database_url {
            Some(u) => u.clone(),
            None => return Err(ConfigError::MissingDatabaseUrl),
        };
        let secret = text_or(&vars.jwt_secret, "default-secret-key");
        let expires_str = text_or(&vars.jwt_expires_in, "86400");
        let expires_in = match parse_i64(expires_str.as_str()) {
            Some(e) => e,
            None => return Err(ConfigError::InvalidExpiresIn),
        };
        let appid = match &vars.wechat_appid {
            Some(a) => a.clone(),
            None => return Err(ConfigError::MissingWechatAppid),
        };
        let wechat_secret = match &vars.wechat_secret {
            Some(s) => s.clone(),
            None => return Err(ConfigError::MissingWechatSecret),
        };
        Ok(AppConfig {
            server: ServerConfig { host, port },
            database: DatabaseConfig { url },
            jwt: JwtConfig { secret, expires_in },
            wechat: WechatConfig { appid, secret: wechat_secret },
        })
    }

    /// The configuration installed in `cell`, if one was.
    ///
    /// Trusted: calls `once_cell::sync::OnceCell::get`. Nothing is stated of the
    /// result: what the cell holds depends on whether and when it was set.
    #[verifier::external_body]
    pub fn get(cell: &OnceCell<AppConfig>) -> Option<&AppConfig> {
        cell.get()
    }
}

} // verus!
