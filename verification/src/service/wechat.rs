use vstd::prelude::*;
use vstd::string::*;
use crate::error::{AppError, AppResult};
use crate::model::request::{
    WechatAccessTokenResponse, WechatCode2SessionResponse, WechatPhoneNumberResponse,
};

verus! {

pub const CODE2SESSION_URL: &'static str = "https://api.weixin.qq.com/sns/jscode2session";

pub const GET_ACCESS_TOKEN_URL: &'static str = "https://api.weixin.qq.com/cgi-bin/token";

pub const GET_PHONE_NUMBER_URL: &'static str = "https://api.weixin.qq.com/wxa/business/getuserphonenumber";

/// The address that exchanges a login code for the user's openid and session key.
pub open spec fn spec_code2session_url(appid: Seq<char>, secret: Seq<char>, code: Seq<char>) -> Seq<char> {
    CODE2SESSION_URL@ + "?appid="@ + appid + "&secret="@ + secret + "&js_code="@ + code
        + "&grant_type=authorization_code"@
}

/// The address that issues the server's access token.
pub open spec fn spec_access_token_url(appid: Seq<char>, secret: Seq<char>) -> Seq<char> {
    GET_ACCESS_TOKEN_URL@ + "?grant_type=client_credential&appid="@ + appid + "&secret="@ + secret
}

/// The address that exchanges a phone code for the phone number.
pub open spec fn spec_phone_number_url(access_token: Seq<char>) -> Seq<char> {
    GET_PHONE_NUMBER_URL@ + "?access_token="@ + access_token
}

/// Whether a WeChat reply reports a failure: an error code that is present and not 0.
pub open spec fn spec_reports_failure(errcode: Option<i32>) -> bool {
    errcode matches Some(c) && c != 0
}

pub open spec fn spec_message_or(errmsg: Option<String>, default: Seq<char>) -> Seq<char> {
    match errmsg {
        Some(m) => m@,
        None => default,
    }
}

/// `r` is the WeChat failure carrying the text `msg`.
pub open spec fn is_wechat_error<T>(r: AppResult<T>, msg: Seq<char>) -> bool {
    r matches Err(AppError::WechatApi(m)) && m@ == msg
}

pub fn code2session_url(appid: &str, secret: &str, code: &str) -> (r: String)
    ensures
        r@ == spec_code2session_url(appid@, secret@, code@),
{
    let mut url = String::from_str(CODE2SESSION_URL);
    url.append("?appid=");
    url.append(appid);
    url.append("&secret=");
    url.append(secret);
    url.append("&js_code=");
    url.append(code);
    url.append("&grant_type=authorization_code");
    url
}

pub fn access_token_url(appid: &str, secret: &str) -> (r: String)
    ensures
        r@ == spec_access_token_url(appid@, secret@),
{
    let mut url = String::from_str(GET_ACCESS_TOKEN_URL);
    url.append("?grant_type=client_credential&appid=");
    url.append(appid);
    url.append("&secret=");
    url.append(secret);
    url
}

pub fn phone_number_url(access_token: &str) -> (r: String)
    ensures
        r@ == spec_phone_number_url(access_token@),
{
    let mut url = String::from_str(GET_PHONE_NUMBER_URL);
    url.append("?access_token=");
    url.append(access_token);
    url
}

fn reports_failure(errcode: Option<i32>) -> (r: bool)
    ensures
        r == spec_reports_failure(errcode),
{
    match errcode {
        Some(c) => c != 0,
        None => false,
    }
}

fn message_or(errmsg: Option<String>, default: &str) -> (r: String)
    ensures
        r@ == spec_message_or(errmsg, default@),
{
    match errmsg {
        Some(m) => m,
        None => String::from_str(default),
    }
}

/// Judges WeChat's reply to a login code: a reported failure gives its message
/// (`未知错误` when it has none), a reply without an openid is a failure too, and
/// any other reply is handed back unchanged.
pub fn check_code2session(resp: WechatCode2SessionResponse) -> (r: AppResult<WechatCode2SessionResponse>)
    ensures
        spec_reports_failure(resp.errcode) ==> is_wechat_error(r, spec_message_or(resp.errmsg, "未知错误"@)),
        !spec_reports_failure(resp.errcode) && resp.openid is None ==> is_wechat_error(r, "获取openid失败"@),
        !spec_reports_failure(resp.errcode) && resp.openid is Some ==> r == Ok::<WechatCode2SessionResponse, AppError>(resp),
{
    if reports_failure(resp.errcode) {
        return Err(AppError::WechatApi(message_or(resp.errmsg, "未知错误")));
    }
    if resp.openid.is_none() {
        return Err(AppError::WechatApi(String::from_str("获取openid失败")));
    }
    Ok(resp)
}

/// Judges WeChat's reply to an access-token request: a reported failure gives its
/// message (`获取access_token失败` when it has none), and otherwise the token is
/// the answer, or a failure where the reply has none.
pub fn check_access_token(resp: WechatAccessTokenResponse) -> (r: AppResult<String>)
    ensures
        spec_reports_failure(resp.errcode) ==> is_wechat_error(r, spec_message_or(resp.errmsg, "获取access_token失败"@)),
        !spec_reports_failure(resp.errcode) && resp.access_token is None ==> is_wechat_error(r, "access_token为空"@),
        !spec_reports_failure(resp.errcode) && resp.access_token is Some ==> r == Ok::<String, AppError>(resp.access_token->0),
{
    if reports_failure(resp.errcode) {
        return Err(AppError::WechatApi(message_or(resp.errmsg, "获取access_token失败")));
    }
    match resp.access_token {
        Some(t) => Ok(t),
        None => Err(AppError::WechatApi(String::from_str("access_token为空"))),
    }
}

/// The phone number without country code that a reply carries, if it carries one.
pub open spec fn spec_pure_phone(resp: WechatPhoneNumberResponse) -> Option<String> {
    match resp.phone_info {
        Some(info) => info.pure_phone_number,
        None => None,
    }
}

/// Judges WeChat's reply to a phone code: a reported failure gives its message
/// (`获取手机号失败` when it has none); otherwise the phone number without country
/// code is the answer, and a reply without one is `PhoneGetFailed`.
pub fn check_phone_number(resp: WechatPhoneNumberResponse) -> (r: AppResult<String>)
    ensures
        spec_reports_failure(resp.errcode) ==> is_wechat_error(r, spec_message_or(resp.errmsg, "获取手机号失败"@)),
        !spec_reports_failure(resp.errcode) && spec_pure_phone(resp) is None ==> r matches Err(AppError::PhoneGetFailed),
        !spec_reports_failure(resp.errcode) && spec_pure_phone(resp) is Some ==> r == Ok::<String, AppError>(spec_pure_phone(resp)->0),
{
    if reports_failure(resp.errcode) {
        return Err(AppError::WechatApi(message_or(resp.errmsg, "获取手机号失败")));
    }
    match resp.phone_info {
        Some(info) => match info.pure_phone_number {
            Some(p) => Ok(p),
            None => Err(AppError::PhoneGetFailed),
        },
        None => Err(AppError::PhoneGetFailed),
    }
}

} // verus!
