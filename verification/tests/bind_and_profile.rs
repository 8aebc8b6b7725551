use wx_miniprogram_server::error::AppError;
use wx_miniprogram_server::model::request::{
    ApiResponse, LoginResponse, UpdateProfileRequest, UserResponse, WechatAccessTokenResponse,
    WechatPhoneInfo, WechatPhoneNumberResponse,
};
use wx_miniprogram_server::model::user::{self, UpdateUser, User};
use wx_miniprogram_server::repository::session::SessionTxRepository;
use wx_miniprogram_server::repository::user::{check_rows_affected, lookup_error};
use wx_miniprogram_server::service::auth::{check_user_active, BindPhoneAction, BindPhoneEvent, BindPhoneState};

fn sample_user(status: i16) -> User {
    User {
        id: 5,
        openid: "o".to_string(),
        unionid: None,
        phone: Some("138".to_string()),
        nickname: Some("nick".to_string()),
        avatar_url: None,
        gender: 1,
        status,
        created_at: 100,
        updated_at: 200,
    }
}

fn token_reply(tok: &str) -> WechatAccessTokenResponse {
    WechatAccessTokenResponse { access_token: Some(tok.to_string()), expires_in: Some(7200), errcode: None, errmsg: None }
}

fn phone_reply(p: &str) -> WechatPhoneNumberResponse {
    WechatPhoneNumberResponse {
        errcode: Some(0),
        errmsg: Some("ok".to_string()),
        phone_info: Some(WechatPhoneInfo {
            phone_number: Some(p.to_string()),
            pure_phone_number: Some(p.to_string()),
            country_code: Some("86".to_string()),
            watermark: None,
        }),
    }
}

#[test]
fn phone_binding_runs_through() {
    let s = BindPhoneState::new(9, "pcode".to_string());
    let (s, a) = s.step(BindPhoneEvent::Begin);
    assert!(matches!(a, BindPhoneAction::RequestAccessToken));
    let (s, a) = s.step(BindPhoneEvent::AccessTokenReplied(Ok(token_reply("TOK"))));
    assert!(matches!(a, BindPhoneAction::RequestPhone { ref access_token, ref code } if access_token == "TOK" && code == "pcode"));
    let (s, a) = s.step(BindPhoneEvent::PhoneReplied(Ok(phone_reply("13900000000"))));
    assert!(matches!(a, BindPhoneAction::UpdatePhone { user_id: 9, ref phone } if phone == "13900000000"));
    let (s, a) = s.step(BindPhoneEvent::PhoneUpdated(Ok(())));
    assert!(s.is_finished());
    assert!(matches!(a, BindPhoneAction::Finish(Ok(ref p)) if p == "13900000000"));
}

#[test]
fn phone_binding_failures() {
    let (s, _) = BindPhoneState::new(9, "c".to_string()).step(BindPhoneEvent::Begin);
    let mut bad = token_reply("T");
    bad.access_token = None;
    let (_, a) = s.step(BindPhoneEvent::AccessTokenReplied(Ok(bad)));
    assert!(matches!(a, BindPhoneAction::Finish(Err(AppError::WechatApi(ref m))) if m == "access_token为空"));

    let (s, _) = BindPhoneState::new(9, "c".to_string()).step(BindPhoneEvent::Begin);
    let (s, _) = s.step(BindPhoneEvent::AccessTokenReplied(Ok(token_reply("T"))));
    let mut nophone = phone_reply("1");
    nophone.phone_info = None;
    let (_, a) = s.step(BindPhoneEvent::PhoneReplied(Ok(nophone)));
    assert!(matches!(a, BindPhoneAction::Finish(Err(AppError::PhoneGetFailed))));

    let (s, _) = BindPhoneState::new(9, "c".to_string()).step(BindPhoneEvent::Begin);
    let (s, _) = s.step(BindPhoneEvent::AccessTokenReplied(Ok(token_reply("T"))));
    let (s, _) = s.step(BindPhoneEvent::PhoneReplied(Ok(phone_reply("1"))));
    let (_, a) = s.step(BindPhoneEvent::PhoneUpdated(check_rows_affected(0)));
    assert!(matches!(a, BindPhoneAction::Finish(Err(AppError::UserNotFound))));
}

#[test]
fn profile_checks() {
    assert!(matches!(check_user_active(sample_user(0)), Err(AppError::UserDisabled)));
    assert_eq!(check_user_active(sample_user(1)).unwrap().id, 5);
    assert!(check_rows_affected(1).is_ok());
    assert!(matches!(lookup_error(true, "no rows".to_string()), AppError::UserNotFound));
    assert!(matches!(lookup_error(false, "io".to_string()), AppError::Database(ref m) if m == "io"));
}

#[test]
fn responses_show_public_fields() {
    let r = UserResponse::from_user(sample_user(1));
    assert_eq!((r.id, r.gender, r.status), (5, 1, 1));
    assert_eq!(r.phone.as_deref(), Some("138"));
    assert_eq!(r.nickname.as_deref(), Some("nick"));
    let l = LoginResponse::new(sample_user(1), "tok".to_string());
    assert_eq!(l.token, "tok");
    assert_eq!(l.user.id, 5);
    let full: user::UserResponse = sample_user(1).into();
    assert_eq!(full.created_at, 100);
    let upd: UpdateUser = UpdateProfileRequest { nickname: Some("n".to_string()), avatar_url: None, gender: Some(2) }.into_update();
    assert_eq!(upd.nickname.as_deref(), Some("n"));
    assert_eq!(upd.gender, Some(2));
    let d = UpdateUser::default();
    assert!(d.nickname.is_none() && d.avatar_url.is_none() && d.gender.is_none());
}

#[test]
fn api_envelopes() {
    let ok = ApiResponse::success(3u8);
    assert_eq!((ok.code, ok.message.as_str(), ok.data), (200, "success", Some(3)));
    let err: ApiResponse<u8> = ApiResponse::error(404, "用户不存在".to_string());
    assert_eq!((err.code, err.message.as_str(), err.data), (404, "用户不存在", None));
}

#[test]
fn session_data_lasts_thirty_days() {
    let s = SessionTxRepository::create_session_data_at(1, "k".to_string(), 0);
    assert_eq!(s.expires_at, 2_592_000_000_000);
    let now = chrono::Utc::now().timestamp_micros();
    let s = SessionTxRepository::create_session_data(1, "k".to_string()).unwrap();
    assert!(s.expires_at - now >= 2_592_000_000_000 && s.expires_at - now < 2_592_060_000_000);
}
