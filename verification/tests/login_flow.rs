use wx_miniprogram_server::config::JwtConfig;
use wx_miniprogram_server::error::AppError;
use wx_miniprogram_server::model::request::WechatCode2SessionResponse;
use wx_miniprogram_server::model::session::SESSION_LIFETIME_MICROS;
use wx_miniprogram_server::model::user::User;
use wx_miniprogram_server::service::auth::{LoginAction, LoginEvent, LoginState};
use wx_miniprogram_server::utils::jwt::JwtService;

const NOW: i64 = 1_700_000_000_000_000;

fn jwt() -> JwtConfig {
    JwtConfig { secret: "k".to_string(), expires_in: 86400 }
}

fn reply(openid: &str) -> WechatCode2SessionResponse {
    WechatCode2SessionResponse {
        openid: Some(openid.to_string()),
        session_key: Some("session-key".to_string()),
        unionid: Some("union".to_string()),
        errcode: None,
        errmsg: None,
    }
}

fn user(id: u128, openid: &str, status: i16) -> User {
    User {
        id,
        openid: openid.to_string(),
        unionid: Some("union".to_string()),
        phone: None,
        nickname: None,
        avatar_url: None,
        gender: 0,
        status,
        created_at: 1,
        updated_at: 1,
    }
}

fn step(s: LoginState, e: LoginEvent) -> (LoginState, LoginAction) {
    assert!(s.accepts(&e));
    s.step(e, &jwt(), NOW)
}

#[test]
fn returning_user_logs_in() {
    let (s, a) = step(LoginState::new("code-1".to_string()), LoginEvent::Begin);
    assert!(matches!(a, LoginAction::RequestSession { ref code } if code == "code-1"));
    let (s, a) = step(s, LoginEvent::WechatReplied(Ok(reply("oid"))));
    assert!(matches!(a, LoginAction::OpenTransaction));
    let (s, a) = step(s, LoginEvent::TransactionOpened(Ok(())));
    assert!(matches!(a, LoginAction::FindUser { ref openid } if openid == "oid"));
    let (s, a) = step(s, LoginEvent::UserLookedUp(Ok(Some(user(42, "oid", 1)))));
    match a {
        LoginAction::StoreSession(cs) => {
            assert_eq!(cs.user_id, 42);
            assert_eq!(cs.session_key, "session-key");
            assert_eq!(cs.expires_at, NOW + SESSION_LIFETIME_MICROS);
            assert_eq!(cs.expires_at - NOW, 30 * 24 * 3600 * 1_000_000);
        }
        other => panic!("{:?}", other),
    }
    let (s, a) = step(s, LoginEvent::SessionStored(Ok(())));
    assert!(matches!(a, LoginAction::Commit));
    let (s, a) = step(s, LoginEvent::Committed(Ok(())));
    assert!(s.is_finished());
    match a {
        LoginAction::Finish(Ok((u, token))) => {
            assert_eq!(u.id, 42);
            assert_eq!(token, JwtService::generate_token_at(&jwt(), 42, "oid", NOW).unwrap());
        }
        other => panic!("{:?}", other),
    }
}

#[test]
fn new_user_is_created_with_wechat_identity() {
    let (s, _) = step(LoginState::new("c".to_string()), LoginEvent::Begin);
    let (s, _) = step(s, LoginEvent::WechatReplied(Ok(reply("fresh"))));
    let (s, _) = step(s, LoginEvent::TransactionOpened(Ok(())));
    let (s, a) = step(s, LoginEvent::UserLookedUp(Ok(None)));
    match a {
        LoginAction::CreateUser(cu) => {
            assert_eq!(cu.openid, "fresh");
            assert_eq!(cu.unionid.as_deref(), Some("union"));
        }
        other => panic!("{:?}", other),
    }
    let (_, a) = step(s, LoginEvent::UserCreated(Ok(user(7, "fresh", 1))));
    assert!(matches!(a, LoginAction::StoreSession(ref cs) if cs.user_id == 7));
}

#[test]
fn disabled_user_is_refused() {
    let (s, _) = step(LoginState::new("c".to_string()), LoginEvent::Begin);
    let (s, _) = step(s, LoginEvent::WechatReplied(Ok(reply("o"))));
    let (s, _) = step(s, LoginEvent::TransactionOpened(Ok(())));
    let (s, a) = step(s, LoginEvent::UserLookedUp(Ok(Some(user(1, "o", 0)))));
    assert!(s.is_finished());
    assert!(matches!(a, LoginAction::Finish(Err(AppError::UserDisabled))));
}

#[test]
fn wechat_failure_ends_login() {
    let (s, _) = step(LoginState::new("c".to_string()), LoginEvent::Begin);
    let mut r = reply("o");
    r.errcode = Some(40029);
    r.errmsg = Some("invalid code".to_string());
    let (s, a) = step(s, LoginEvent::WechatReplied(Ok(r)));
    assert!(s.is_finished());
    assert!(matches!(a, LoginAction::Finish(Err(AppError::WechatApi(ref m))) if m == "invalid code"));
}

#[test]
fn outside_failures_are_passed_on() {
    let (s, _) = step(LoginState::new("c".to_string()), LoginEvent::Begin);
    let (s, _) = step(s, LoginEvent::WechatReplied(Ok(reply("o"))));
    let (s, a) = step(s, LoginEvent::TransactionOpened(Err(AppError::Database("pool closed".to_string()))));
    assert!(s.is_finished());
    assert!(matches!(a, LoginAction::Finish(Err(AppError::Database(ref m))) if m == "pool closed"));

    let (s, _) = step(LoginState::new("c".to_string()), LoginEvent::Begin);
    let (_, a) = step(s, LoginEvent::WechatReplied(Err(AppError::Request("timeout".to_string()))));
    assert!(matches!(a, LoginAction::Finish(Err(AppError::Request(_)))));
}

#[test]
fn finished_login_accepts_nothing() {
    let (s, _) = step(LoginState::new("c".to_string()), LoginEvent::Begin);
    let (s, _) = step(s, LoginEvent::WechatReplied(Err(AppError::Request("x".to_string()))));
    assert!(!s.accepts(&LoginEvent::Begin));
    assert!(!s.accepts(&LoginEvent::Committed(Ok(()))));
}

#[test]
fn reply_without_session_key_is_flagged() {
    let mut r = reply("o");
    r.session_key = None;
    assert!(LoginState::reply_lacks_session_key(&LoginEvent::WechatReplied(Ok(r))));
    assert!(!LoginState::reply_lacks_session_key(&LoginEvent::WechatReplied(Ok(reply("o")))));
}
