use wx_miniprogram_server::config::{AppConfig, ConfigError, EnvVars};
use wx_miniprogram_server::error::AppError;

fn s(v: &str) -> Option<String> {
    Some(v.to_string())
}

fn full_vars() -> EnvVars {
    EnvVars {
        server_host: None,
        server_port: None,
        database_url: s("postgres://localhost/app"),
        jwt_secret: None,
        jwt_expires_in: None,
        wechat_appid: s("wx123"),
        wechat_secret: s("sec"),
    }
}

#[test]
fn status_codes_follow_the_error_kind() {
    assert_eq!(AppError::Database("x".into()).status_code(), 500);
    assert_eq!(AppError::Request("x".into()).status_code(), 502);
    assert_eq!(AppError::Config("x".into()).status_code(), 500);
    assert_eq!(AppError::Unauthorized.status_code(), 401);
    assert_eq!(AppError::InvalidToken.status_code(), 401);
    assert_eq!(AppError::TokenExpired.status_code(), 401);
    assert_eq!(AppError::UserNotFound.status_code(), 404);
    assert_eq!(AppError::UserDisabled.status_code(), 403);
    assert_eq!(AppError::WechatApi("x".into()).status_code(), 502);
    assert_eq!(AppError::PhoneGetFailed.status_code(), 400);
    assert_eq!(AppError::Validation("x".into()).status_code(), 400);
    assert_eq!(AppError::Internal("x".into()).status_code(), 500);
}

#[test]
fn public_messages_hide_internal_details() {
    assert_eq!(AppError::Database("secret table".into()).public_message(), "数据库错误");
    assert_eq!(AppError::Request("timeout".into()).public_message(), "外部请求失败");
    assert_eq!(AppError::Config("x".into()).public_message(), "配置错误");
    assert_eq!(AppError::Internal("stack".into()).public_message(), "内部错误");
    assert_eq!(AppError::WechatApi("invalid code".into()).public_message(), "invalid code");
    assert_eq!(AppError::Validation("bad gender".into()).public_message(), "bad gender");
    assert_eq!(AppError::TokenExpired.public_message(), "Token已过期");
    assert_eq!(AppError::UserDisabled.public_message(), "用户已被禁用");
    assert_eq!(AppError::PhoneGetFailed.public_message(), "手机号获取失败");
    assert_eq!(
        AppError::Database("a".into()).public_message(),
        AppError::Database("b".into()).public_message()
    );
}

#[test]
fn descriptions_carry_the_details() {
    assert_eq!(AppError::Database("boom".into()).description(), "数据库错误: boom");
    assert_eq!(AppError::WechatApi("40029".into()).description(), "微信API错误: 40029");
    assert_eq!(AppError::Validation("v".into()).description(), "参数验证失败: v");
    assert_eq!(AppError::Internal("i".into()).description(), "内部错误: i");
    assert_eq!(AppError::Unauthorized.description(), "未授权");
    assert_eq!(AppError::Database("x".into()).log_line().as_deref(), Some("Database error: x"));
    assert_eq!(AppError::WechatApi("w".into()).log_line().as_deref(), Some("Wechat API error: w"));
    assert_eq!(AppError::Internal("i".into()).log_line().as_deref(), Some("Internal error: i"));
    assert_eq!(AppError::UserNotFound.log_line(), None);
    assert_eq!(AppError::Validation("v".into()).log_line(), None);
}

#[test]
fn config_uses_defaults() {
    let c = AppConfig::from_env_vars(&full_vars()).unwrap();
    assert_eq!(c.server.host, "0.0.0.0");
    assert_eq!(c.server.port, 3000);
    assert_eq!(c.database.url, "postgres://localhost/app");
    assert_eq!(c.jwt.secret, "default-secret-key");
    assert_eq!(c.jwt.expires_in, 86400);
    assert_eq!(c.wechat.appid, "wx123");
    assert_eq!(c.wechat.secret, "sec");
}

#[test]
fn config_reads_given_values() {
    let mut v = full_vars();
    v.server_host = s("127.0.0.1");
    v.server_port = s("+8080");
    v.jwt_secret = s("k");
    v.jwt_expires_in = s("-60");
    let c = AppConfig::from_env_vars(&v).unwrap();
    assert_eq!(c.server.host, "127.0.0.1");
    assert_eq!(c.server.port, 8080);
    assert_eq!(c.jwt.secret, "k");
    assert_eq!(c.jwt.expires_in, -60);
}

#[test]
fn config_errors_in_order() {
    let mut v = full_vars();
    v.server_port = s("70000");
    v.database_url = None;
    assert_eq!(AppConfig::from_env_vars(&v).unwrap_err(), ConfigError::InvalidPort);
    v.server_port = s(" 80");
    assert_eq!(AppConfig::from_env_vars(&v).unwrap_err(), ConfigError::InvalidPort);
    v.server_port = s("80");
    assert_eq!(AppConfig::from_env_vars(&v).unwrap_err(), ConfigError::MissingDatabaseUrl);
    v.database_url = s("db");
    v.jwt_expires_in = s("1d");
    assert_eq!(AppConfig::from_env_vars(&v).unwrap_err(), ConfigError::InvalidExpiresIn);
    v.jwt_expires_in = s("9223372036854775808");
    assert_eq!(AppConfig::from_env_vars(&v).unwrap_err(), ConfigError::InvalidExpiresIn);
    v.jwt_expires_in = s("3600");
    v.wechat_appid = None;
    assert_eq!(AppConfig::from_env_vars(&v).unwrap_err(), ConfigError::MissingWechatAppid);
    v.wechat_appid = s("a");
    v.wechat_secret = None;
    assert_eq!(AppConfig::from_env_vars(&v).unwrap_err(), ConfigError::MissingWechatSecret);
}

#[test]
fn config_error_messages() {
    assert_eq!(ConfigError::InvalidPort.message(), "SERVER_PORT must be a valid port number");
    assert_eq!(ConfigError::MissingDatabaseUrl.message(), "DATABASE_URL must be set");
    assert_eq!(ConfigError::InvalidExpiresIn.message(), "JWT_EXPIRES_IN must be a valid number");
    assert_eq!(ConfigError::MissingWechatAppid.message(), "WECHAT_APPID must be set");
    assert_eq!(ConfigError::MissingWechatSecret.message(), "WECHAT_SECRET must be set");
}

#[test]
fn config_cell_gives_what_was_set() {
    let cell = once_cell::sync::OnceCell::new();
    assert!(AppConfig::get(&cell).is_none());
    let c = AppConfig::from_env_vars(&full_vars()).unwrap();
    assert!(cell.set(c).is_ok());
    assert_eq!(AppConfig::get(&cell).unwrap().server.port, 3000);
}
