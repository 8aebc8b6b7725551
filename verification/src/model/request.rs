use vstd::prelude::*;
use vstd::string::*;
use crate::model::user::{UpdateUser, User};

verus! {

// ============ request bodies ============

/// A WeChat login request: the code that `wx.login` handed the mini-program.
#[derive(Debug, Clone)]
pub struct LoginRequest {
    pub code: String,
}

/// A request to bind the phone number that the code stands for.
#[derive(Debug, Clone)]
pub struct PhoneRequest {
    pub code: String,
}

/// A request to change the caller's profile.
#[derive(Debug, Clone)]
pub struct UpdateProfileRequest {
    pub nickname: Option<String>,
    pub avatar_url: Option<String>,
    pub gender: Option<i16>,
}

impl UpdateProfileRequest {
    /// The profile change that this request asks for, field for field.
    pub fn into_update(self) -> (r: UpdateUser)
        ensures
            r.nickname == self.nickname,
            r.avatar_url == self.avatar_url,
            r.gender == self.gender,
    {
        UpdateUser { nickname: self.nickname, avatar_url: self.avatar_url, gender: self.gender }
    }
}

// ============ response bodies ============

/// The answer to a successful login.
#[derive(Debug, Clone)]
pub struct LoginResponse {
    pub token: String,
    pub user: UserResponse,
}

/// A user as the API shows it.
#[derive(Debug, Clone)]
pub struct UserResponse {
    pub id: u128,
    pub phone: Option<String>,
    pub nickname: Option<String>,
    pub avatar_url: Option<String>,
    pub gender: i16,
    pub status: i16,
}

impl UserResponse {
    pub open spec fn spec_from_user(user: User) -> UserResponse {
        UserResponse {
            id: user.id,
            phone: user.phone,
            nickname: user.nickname,
            avatar_url: user.avatar_url,
            gender: user.gender,
            status: user.status,
        }
    }

    /// The public fields of `user`: neither the WeChat identities nor the times.
    pub fn from_user(user: User) -> (r: UserResponse)
        ensures
            r == UserResponse::spec_from_user(user),
            r.id == user.id,
            r.phone == user.phone,
            r.nickname == user.nickname,
            r.avatar_url == user.avatar_url,
            r.gender == user.gender,
            r.status == user.status,
    {
        UserResponse {
            id: user.id,
            phone: user.phone,
            nickname: user.nickname,
            avatar_url: user.avatar_url,
            gender: user.gender,
            status: user.status,
        }
    }
}

impl LoginResponse {
    /// The answer to a login that gave `user` the token `token`.
    pub fn new(user: User, token: String) -> (r: LoginResponse)
        ensures
            r.token == token,
            r.user == UserResponse::spec_from_user(user),
            r.user.id == user.id,
            r.user.phone == user.phone,
            r.user.nickname == user.nickname,
            r.user.avatar_url == user.avatar_url,
            r.user.gender == user.gender,
            r.user.status == user.status,
    {
        LoginResponse { token, user: UserResponse::from_user(user) }
    }
}

/// The answer to a bound phone number.
#[derive(Debug, Clone)]
pub struct PhoneResponse {
    pub phone: String,
}

/// The common envelope of an answer.
#[derive(Debug, Clone)]
pub struct ApiResponse<T> {
    pub code: u16,
    pub message: String,
    pub data: Option<T>,
}

impl<T> ApiResponse<T> {
    /// A successful answer carrying `data`.
    pub fn success(data: T) -> (r: Self)
        ensures
            r.code == 200,
            r.message@ == "success"@,
            r.data == Some(data),
    {
        ApiResponse { code: 200, message: String::from_str("success"), data: Some(data) }
    }

    /// A failed answer with `code` and `message` and no data.
    pub fn error(code: u16, message: String) -> (r: Self)
        ensures
            r.code == code,
            r.message == message,
            r.data is None,
    {
        ApiResponse { code, message, data: None }
    }
}

// ============ WeChat API replies ============

/// The reply of WeChat's `jscode2session`.
#[derive(Debug, Clone)]
pub struct WechatCode2SessionResponse {
    pub openid: Option<String>,
    pub session_key: Option<String>,
    pub unionid: Option<String>,
    pub errcode: Option<i32>,
    pub errmsg: Option<String>,
}

/// The reply of WeChat's `getuserphonenumber`.
#[derive(Debug, Clone)]
pub struct WechatPhoneNumberResponse {
    pub errcode: Option<i32>,
    pub errmsg: Option<String>,
    pub phone_info: Option<WechatPhoneInfo>,
}

#[derive(Debug, Clone)]
pub struct WechatPhoneInfo {
    pub phone_number: Option<String>,
    pub pure_phone_number: Option<String>,
    pub country_code: Option<String>,
    pub watermark: Option<WechatWatermark>,
}

#[derive(Debug, Clone)]
pub struct WechatWatermark {
    pub appid: String,
    pub timestamp: i64,
}

/// The reply of WeChat's `token` (the server's access token).
#[derive(Debug, Clone)]
pub struct WechatAccessTokenResponse {
    pub access_token: Option<String>,
    pub expires_in: Option<i32>,
    pub errcode: Option<i32>,
    pub errmsg: Option<String>,
}


/// The API's view of a user carries each public field of that user unchanged.
pub proof fn lemma_response_shows_public_fields(user: User)
    ensures
        UserResponse::spec_from_user(user).id == user.id,
        UserResponse::spec_from_user(user).phone == user.phone,
        UserResponse::spec_from_user(user).nickname == user.nickname,
        UserResponse::spec_from_user(user).avatar_url == user.avatar_url,
        UserResponse::spec_from_user(user).gender == user.gender,
        UserResponse::spec_from_user(user).status == user.status,
{
}

} // verus!
