use vstd::prelude::*;
use vstd::pervasive::unreached;
use vstd::string::*;
use crate::config::JwtConfig;
use crate::error::{AppError, AppResult};
use crate::model::request::{
    WechatAccessTokenResponse, WechatCode2SessionResponse, WechatPhoneNumberResponse,
};
use crate::model::session::{CreateSession, SESSION_LIFETIME_MICROS};
use crate::model::user::{CreateUser, User};
use crate::repository::session::{spec_session_at, SessionTxRepository};
use crate::service::wechat::{
    check_access_token, check_code2session, check_phone_number,
    spec_message_or, spec_pure_phone, spec_reports_failure,
};
use crate::utils::jwt::{hs256_token, spec_seconds, JwtService, MAX_EXPIRES_IN};

verus! {

// ============ login ============

/// Where a WeChat login stands. A login opens a database transaction after WeChat
/// has answered, and keeps it open until it commits or finishes.
#[derive(Debug)]
pub enum LoginState {
    /// Nothing is done yet; `code` is the login code from the client.
    Start { code: String },
    /// Waiting for WeChat's answer to the code.
    AwaitingWechat,
    /// Waiting for the transaction to open.
    AwaitingTransaction { openid: String, session_key: String, unionid: Option<String> },
    /// Waiting for the user with this openid to be looked up.
    AwaitingLookup { openid: String, session_key: String, unionid: Option<String> },
    /// Waiting for the new user to be created.
    AwaitingCreate { session_key: String },
    /// Waiting for the user's new session to be stored.
    AwaitingSession { user: User },
    /// Waiting for the transaction to commit.
    AwaitingCommit { user: User },
    /// The login is over.
    Finished,
}

/// What the outside world reports to a login.
#[derive(Debug)]
pub enum LoginEvent {
    /// The login starts.
    Begin,
    /// WeChat answered the code (or the request failed).
    WechatReplied(AppResult<WechatCode2SessionResponse>),
    /// The transaction was opened (or not).
    TransactionOpened(AppResult<()>),
    /// The lookup by openid found this user, or none.
    UserLookedUp(AppResult<Option<User>>),
    /// The new user was created.
    UserCreated(AppResult<User>),
    /// The old sessions of the user were deleted and the new one inserted.
    SessionStored(AppResult<()>),
    /// The transaction committed.
    Committed(AppResult<()>),
}

/// What a login asks of the outside world next.
#[derive(Debug)]
pub enum LoginAction {
    /// Exchange the code with WeChat for the openid and session key.
    RequestSession { code: String },
    /// Open a database transaction.
    OpenTransaction,
    /// Look up the user with this openid, in the transaction.
    FindUser { openid: String },
    /// Create this user, in the transaction.
    CreateUser(CreateUser),
    /// Delete the user's sessions and insert this one, in the transaction.
    StoreSession(CreateSession),
    /// Commit the transaction.
    Commit,
    /// The login ends with this outcome; a transaction still open is rolled back.
    Finish(AppResult<(User, String)>),
}

/// A login that has `user` in hand: a disabled user ends it, and an active one
/// gets the session.
pub open spec fn spec_take_in_user(user: User, session_key: String, now_micros: i64, s2: LoginState, a: LoginAction) -> bool {
    if user.status == 0 {
        s2 is Finished && a == LoginAction::Finish(Err(AppError::UserDisabled))
    } else {
        s2 == LoginState::AwaitingSession { user }
            && a == LoginAction::StoreSession(spec_session_at(user.id, session_key, now_micros))
    }
}

/// The login ends with the error `e`.
pub open spec fn spec_fails_with(e: AppError, s2: LoginState, a: LoginAction) -> bool {
    s2 is Finished && a == LoginAction::Finish(Err(e))
}

/// The login ends with a WeChat failure carrying `msg`.
pub open spec fn spec_fails_with_wechat(msg: Seq<char>, s2: LoginState, a: LoginAction) -> bool {
    &&& s2 is Finished
    &&& a matches LoginAction::Finish(Err(AppError::WechatApi(m))) && m@ == msg
}

/// One step of a login: from state `s` and event `e`, at time `now_micros`, the
/// next state is `s2` and the next action `a`.
pub open spec fn spec_login_step(
    s: LoginState,
    e: LoginEvent,
    jwt: JwtConfig,
    now_micros: i64,
    s2: LoginState,
    a: LoginAction,
) -> bool {
    match s {
        LoginState::Start { code } => e is Begin && s2 is AwaitingWechat && a == LoginAction::RequestSession { code },
        LoginState::AwaitingWechat => match e {
            LoginEvent::WechatReplied(Err(err)) => spec_fails_with(err, s2, a),
            LoginEvent::WechatReplied(Ok(resp)) => if spec_reports_failure(resp.errcode) {
                spec_fails_with_wechat(spec_message_or(resp.errmsg, "未知错误"@), s2, a)
            } else if resp.openid is None {
                spec_fails_with_wechat("获取openid失败"@, s2, a)
            } else {
                resp.session_key is Some && s2 == (LoginState::AwaitingTransaction {
                    openid: resp.openid->0,
                    session_key: resp.session_key->0,
                    unionid: resp.unionid,
                }) && a == LoginAction::OpenTransaction
            },
            _ => false,
        },
        LoginState::AwaitingTransaction { openid, session_key, unionid } => match e {
            LoginEvent::TransactionOpened(Err(err)) => spec_fails_with(err, s2, a),
            LoginEvent::TransactionOpened(Ok(())) => s2 == (LoginState::AwaitingLookup { openid, session_key, unionid })
                && a == (LoginAction::FindUser { openid }),
            _ => false,
        },
        LoginState::AwaitingLookup { openid, session_key, unionid } => match e {
            LoginEvent::UserLookedUp(Err(err)) => spec_fails_with(err, s2, a),
            LoginEvent::UserLookedUp(Ok(Some(user))) => spec_take_in_user(user, session_key, now_micros, s2, a),
            LoginEvent::UserLookedUp(Ok(None)) => s2 == (LoginState::AwaitingCreate { session_key })
                && a == LoginAction::CreateUser(CreateUser { openid, unionid }),
            _ => false,
        },
        LoginState::AwaitingCreate { session_key } => match e {
            LoginEvent::UserCreated(Err(err)) => spec_fails_with(err, s2, a),
            LoginEvent::UserCreated(Ok(user)) => spec_take_in_user(user, session_key, now_micros, s2, a),
            _ => false,
        },
        LoginState::AwaitingSession { user } => match e {
            LoginEvent::SessionStored(Err(err)) => spec_fails_with(err, s2, a),
            LoginEvent::SessionStored(Ok(())) => s2 == (LoginState::AwaitingCommit { user }) && a is Commit,
            _ => false,
        },
        LoginState::AwaitingCommit { user } => match e {
            LoginEvent::Committed(Err(err)) => spec_fails_with(err, s2, a),
            LoginEvent::Committed(Ok(())) => {
                &&& s2 is Finished
                &&& a matches LoginAction::Finish(Ok((u, t))) && u == user && t@ == hs256_token(
                    user.id,
                    user.openid@,
                    (spec_seconds(now_micros) + jwt.expires_in) as i64,
                    spec_seconds(now_micros) as i64,
                    jwt.secret@,
                )
            },
            _ => false,
        },
        LoginState::Finished => false,
    }
}

impl LoginState {
    /// Whether the state waits for this kind of event.
    pub open spec fn spec_accepts(self, e: LoginEvent) -> bool {
        match self {
            LoginState::Start { .. } => e is Begin,
            LoginState::AwaitingWechat => e is WechatReplied,
            LoginState::AwaitingTransaction { .. } => e is TransactionOpened,
            LoginState::AwaitingLookup { .. } => e is UserLookedUp,
            LoginState::AwaitingCreate { .. } => e is UserCreated,
            LoginState::AwaitingSession { .. } => e is SessionStored,
            LoginState::AwaitingCommit { .. } => e is Committed,
            LoginState::Finished => false,
        }
    }

    /// What the state holds: a login only ever holds an active user.
    pub open spec fn spec_wf(self) -> bool {
        match self {
            LoginState::AwaitingSession { user } => user.status != 0,
            LoginState::AwaitingCommit { user } => user.status != 0,
            _ => true,
        }
    }

    /// Whether the state has a transaction open.
    pub open spec fn spec_in_transaction(self) -> bool {
        match self {
            LoginState::AwaitingLookup { .. } | LoginState::AwaitingCreate { .. }
            | LoginState::AwaitingSession { .. } | LoginState::AwaitingCommit { .. } => true,
            _ => false,
        }
    }

    /// A login of the code `code` that has not started.
    pub fn new(code: String) -> (r: LoginState)
        ensures
            r == (LoginState::Start { code }),
    {
        LoginState::Start { code }
    }

    pub fn accepts(&self, e: &LoginEvent) -> (r: bool)
        ensures
            r == self.spec_accepts(*e),
    {
        match self {
            LoginState::Start { .. } => matches!(e, LoginEvent::Begin),
            LoginState::AwaitingWechat => matches!(e, LoginEvent::WechatReplied(_)),
            LoginState::AwaitingTransaction { .. } => matches!(e, LoginEvent::TransactionOpened(_)),
            LoginState::AwaitingLookup { .. } => matches!(e, LoginEvent::UserLookedUp(_)),
            LoginState::AwaitingCreate { .. } => matches!(e, LoginEvent::UserCreated(_)),
            LoginState::AwaitingSession { .. } => matches!(e, LoginEvent::SessionStored(_)),
            LoginState::AwaitingCommit { .. } => matches!(e, LoginEvent::Committed(_)),
            LoginState::Finished => false,
        }
    }

    pub fn is_finished(&self) -> (r: bool)
        ensures
            r == (*self is Finished),
    {
        matches!(self, LoginState::Finished)
    }

    /// Whether the next step signs a token (the step on the commit).
    pub fn signs_token(&self) -> (r: bool)
        ensures
            r == (*self is AwaitingCommit),
    {
        matches!(self, LoginState::AwaitingCommit { .. })
    }

    /// Whether the next step may make a session (the steps that receive the user).
    pub fn makes_session(&self) -> (r: bool)
        ensures
            r == (*self is AwaitingLookup || *self is AwaitingCreate),
    {
        matches!(self, LoginState::AwaitingLookup { .. } | LoginState::AwaitingCreate { .. })
    }

    /// Whether a WeChat reply that passes the checks lacks the session key, which
    /// a login cannot go on without.
    pub open spec fn spec_reply_lacks_session_key(e: LoginEvent) -> bool {
        e matches LoginEvent::WechatReplied(Ok(resp)) && !spec_reports_failure(resp.errcode)
            && resp.openid is Some && resp.session_key is None
    }

    pub fn reply_lacks_session_key(e: &LoginEvent) -> (r: bool)
        ensures
            r == Self::spec_reply_lacks_session_key(*e),
            r ==> (e matches LoginEvent::WechatReplied(Ok(resp)) && resp.session_key is None),
    {
        match e {
            LoginEvent::WechatReplied(Ok(resp)) => {
                let failed = match resp.errcode {
                    Some(c) => c != 0,
                    None => false,
                };
                !failed && resp.openid.is_some() && resp.session_key.is_none()
            },
            _ => false,
        }
    }

    /// One step of a login at time `now_micros`, tokens signed with `jwt`.
    pub fn step(self, e: LoginEvent, jwt: &JwtConfig, now_micros: i64) -> (r: (LoginState, LoginAction))
        requires
            self.spec_accepts(e),
            !Self::spec_reply_lacks_session_key(e),
            self is AwaitingCommit ==> -MAX_EXPIRES_IN <= jwt.expires_in <= MAX_EXPIRES_IN,
            (self is AwaitingLookup || self is AwaitingCreate) ==> now_micros <= i64::MAX - SESSION_LIFETIME_MICROS,
        ensures
            spec_login_step(self, e, *jwt, now_micros, r.0, r.1),
    {
        match self {
            LoginState::Start { code } => (LoginState::AwaitingWechat, LoginAction::RequestSession { code }),
            LoginState::AwaitingWechat => match e {
                LoginEvent::WechatReplied(Err(err)) => (LoginState::Finished, LoginAction::Finish(Err(err))),
                LoginEvent::WechatReplied(Ok(resp)) => match check_code2session(resp) {
                    Err(err) => (LoginState::Finished, LoginAction::Finish(Err(err))),
                    Ok(resp) => {
                        let openid = resp.openid.unwrap();
                        let session_key = resp.session_key.unwrap();
                        (
                            LoginState::AwaitingTransaction { openid, session_key, unionid: resp.unionid },
                            LoginAction::OpenTransaction,
                        )
                    },
                },
                _ => unreached(),
            },
            LoginState::AwaitingTransaction { openid, session_key, unionid } => match e {
                LoginEvent::TransactionOpened(Err(err)) => (LoginState::Finished, LoginAction::Finish(Err(err))),
                LoginEvent::TransactionOpened(Ok(())) => {
                    let lookup = openid.clone();
                    (LoginState::AwaitingLookup { openid, session_key, unionid }, LoginAction::FindUser { openid: lookup })
                },
                _ => unreached(),
            },
            LoginState::AwaitingLookup { openid, session_key, unionid } => match e {
                LoginEvent::UserLookedUp(Err(err)) => (LoginState::Finished, LoginAction::Finish(Err(err))),
                LoginEvent::UserLookedUp(Ok(Some(user))) => take_in_user(user, session_key, now_micros),
                LoginEvent::UserLookedUp(Ok(None)) => (
                    LoginState::AwaitingCreate { session_key },
                    LoginAction::CreateUser(CreateUser { openid, unionid }),
                ),
                _ => unreached(),
            },
            LoginState::AwaitingCreate { session_key } => match e {
                LoginEvent::UserCreated(Err(err)) => (LoginState::Finished, LoginAction::Finish(Err(err))),
                LoginEvent::UserCreated(Ok(user)) => take_in_user(user, session_key, now_micros),
                _ => unreached(),
            },
            LoginState::AwaitingSession { user } => match e {
                LoginEvent::SessionStored(Err(err)) => (LoginState::Finished, LoginAction::Finish(Err(err))),
                LoginEvent::SessionStored(Ok(())) => (LoginState::AwaitingCommit { user }, LoginAction::Commit),
                _ => unreached(),
            },
            LoginState::AwaitingCommit { user } => match e {
                LoginEvent::Committed(Err(err)) => (LoginState::Finished, LoginAction::Finish(Err(err))),
                LoginEvent::Committed(Ok(())) => {
                    match JwtService::generate_token_at(jwt, user.id, user.openid.as_str(), now_micros) {
                        Ok(token) => (LoginState::Finished, LoginAction::Finish(Ok((user, token)))),
                        Err(err) => (LoginState::Finished, LoginAction::Finish(Err(err))),
                    }
                },
                _ => unreached(),
            },
            LoginState::Finished => unreached(),
        }
    }
}

fn take_in_user(user: User, session_key: String, now_micros: i64) -> (r: (LoginState, LoginAction))
    requires
        now_micros <= i64::MAX - SESSION_LIFETIME_MICROS,
    ensures
        spec_take_in_user(user, session_key, now_micros, r.0, r.1),
{
    if user.is_disabled() {
        (LoginState::Finished, LoginAction::Finish(Err(AppError::UserDisabled)))
    } else {
        let session = SessionTxRepository::create_session_data_at(user.id, session_key, now_micros);
        (LoginState::AwaitingSession { user }, LoginAction::StoreSession(session))
    }
}


// ============ binding a phone number ============

/// Where binding a phone number to a user stands.
#[derive(Debug)]
pub enum BindPhoneState {
    /// Nothing is done yet.
    Start { user_id: u128, code: String },
    /// Waiting for the server's WeChat access token.
    AwaitingAccessToken { user_id: u128, code: String },
    /// Waiting for WeChat to tell the number that the code stands for.
    AwaitingPhone { user_id: u128 },
    /// Waiting for the number to be stored on the user.
    AwaitingUpdate { phone: String },
    /// Binding is over.
    Finished,
}

/// What the outside world reports to a binding.
#[derive(Debug)]
pub enum BindPhoneEvent {
    Begin,
    AccessTokenReplied(AppResult<WechatAccessTokenResponse>),
    PhoneReplied(AppResult<WechatPhoneNumberResponse>),
    PhoneUpdated(AppResult<()>),
}

/// What a binding asks of the outside world next.
#[derive(Debug)]
pub enum BindPhoneAction {
    /// Ask WeChat for the server's access token.
    RequestAccessToken,
    /// Ask WeChat, with the access token, for the number behind `code`.
    RequestPhone { access_token: String, code: String },
    /// Store `phone` as the phone number of the user `user_id`.
    UpdatePhone { user_id: u128, phone: String },
    /// Binding ends with this outcome.
    Finish(AppResult<String>),
}

/// The binding ends with the error `e`.
pub open spec fn spec_bind_fails_with(e: AppError, s2: BindPhoneState, a: BindPhoneAction) -> bool {
    s2 is Finished && a == BindPhoneAction::Finish(Err(e))
}

pub open spec fn spec_bind_fails_with_wechat(msg: Seq<char>, s2: BindPhoneState, a: BindPhoneAction) -> bool {
    &&& s2 is Finished
    &&& a matches BindPhoneAction::Finish(Err(AppError::WechatApi(m))) && m@ == msg
}

/// One step of binding a phone number.
pub open spec fn spec_bind_step(s: BindPhoneState, e: BindPhoneEvent, s2: BindPhoneState, a: BindPhoneAction) -> bool {
    match s {
        BindPhoneState::Start { user_id, code } => e is Begin && s2 == (BindPhoneState::AwaitingAccessToken { user_id, code })
            && a is RequestAccessToken,
        BindPhoneState::AwaitingAccessToken { user_id, code } => match e {
            BindPhoneEvent::AccessTokenReplied(Err(err)) => spec_bind_fails_with(err, s2, a),
            BindPhoneEvent::AccessTokenReplied(Ok(resp)) => if spec_reports_failure(resp.errcode) {
                spec_bind_fails_with_wechat(spec_message_or(resp.errmsg, "获取access_token失败"@), s2, a)
            } else if resp.access_token is None {
                spec_bind_fails_with_wechat("access_token为空"@, s2, a)
            } else {
                s2 == (BindPhoneState::AwaitingPhone { user_id })
                    && a == (BindPhoneAction::RequestPhone { access_token: resp.access_token->0, code })
            },
            _ => false,
        },
        BindPhoneState::AwaitingPhone { user_id } => match e {
            BindPhoneEvent::PhoneReplied(Err(err)) => spec_bind_fails_with(err, s2, a),
            BindPhoneEvent::PhoneReplied(Ok(resp)) => if spec_reports_failure(resp.errcode) {
                spec_bind_fails_with_wechat(spec_message_or(resp.errmsg, "获取手机号失败"@), s2, a)
            } else if spec_pure_phone(resp) is None {
                spec_bind_fails_with(AppError::PhoneGetFailed, s2, a)
            } else {
                s2 == (BindPhoneState::AwaitingUpdate { phone: spec_pure_phone(resp)->0 })
                    && a == (BindPhoneAction::UpdatePhone { user_id, phone: spec_pure_phone(resp)->0 })
            },
            _ => false,
        },
        BindPhoneState::AwaitingUpdate { phone } => match e {
            BindPhoneEvent::PhoneUpdated(Err(err)) => spec_bind_fails_with(err, s2, a),
            BindPhoneEvent::PhoneUpdated(Ok(())) => s2 is Finished && a == BindPhoneAction::Finish(Ok(phone)),
            _ => false,
        },
        BindPhoneState::Finished => false,
    }
}

impl BindPhoneState {
    pub open spec fn spec_accepts(self, e: BindPhoneEvent) -> bool {
        match self {
            BindPhoneState::Start { .. } => e is Begin,
            BindPhoneState::AwaitingAccessToken { .. } => e is AccessTokenReplied,
            BindPhoneState::AwaitingPhone { .. } => e is PhoneReplied,
            BindPhoneState::AwaitingUpdate { .. } => e is PhoneUpdated,
            BindPhoneState::Finished => false,
        }
    }

    /// Binding the number behind `code` to the user `user_id`, not started.
    pub fn new(user_id: u128, code: String) -> (r: BindPhoneState)
        ensures
            r == (BindPhoneState::Start { user_id, code }),
    {
        BindPhoneState::Start { user_id, code }
    }

    pub fn accepts(&self, e: &BindPhoneEvent) -> (r: bool)
        ensures
            r == self.spec_accepts(*e),
    {
        match self {
            BindPhoneState::Start { .. } => matches!(e, BindPhoneEvent::Begin),
            BindPhoneState::AwaitingAccessToken { .. } => matches!(e, BindPhoneEvent::AccessTokenReplied(_)),
            BindPhoneState::AwaitingPhone { .. } => matches!(e, BindPhoneEvent::PhoneReplied(_)),
            BindPhoneState::AwaitingUpdate { .. } => matches!(e, BindPhoneEvent::PhoneUpdated(_)),
            BindPhoneState::Finished => false,
        }
    }

    pub fn is_finished(&self) -> (r: bool)
        ensures
            r == (*self is Finished),
    {
        matches!(self, BindPhoneState::Finished)
    }

    /// One step of binding a phone number.
    pub fn step(self, e: BindPhoneEvent) -> (r: (BindPhoneState, BindPhoneAction))
        requires
            self.spec_accepts(e),
        ensures
            spec_bind_step(self, e, r.0, r.1),
    {
        match self {
            BindPhoneState::Start { user_id, code } => (
                BindPhoneState::AwaitingAccessToken { user_id, code },
                BindPhoneAction::RequestAccessToken,
            ),
            BindPhoneState::AwaitingAccessToken { user_id, code } => match e {
                BindPhoneEvent::AccessTokenReplied(Err(err)) => (BindPhoneState::Finished, BindPhoneAction::Finish(Err(err))),
                BindPhoneEvent::AccessTokenReplied(Ok(resp)) => match check_access_token(resp) {
                    Err(err) => (BindPhoneState::Finished, BindPhoneAction::Finish(Err(err))),
                    Ok(access_token) => (
                        BindPhoneState::AwaitingPhone { user_id },
                        BindPhoneAction::RequestPhone { access_token, code },
                    ),
                },
                _ => unreached(),
            },
            BindPhoneState::AwaitingPhone { user_id } => match e {
                BindPhoneEvent::PhoneReplied(Err(err)) => (BindPhoneState::Finished, BindPhoneAction::Finish(Err(err))),
                BindPhoneEvent::PhoneReplied(Ok(resp)) => match check_phone_number(resp) {
                    Err(err) => (BindPhoneState::Finished, BindPhoneAction::Finish(Err(err))),
                    Ok(phone) => {
                        let stored = phone.clone();
                        (BindPhoneState::AwaitingUpdate { phone: stored }, BindPhoneAction::UpdatePhone { user_id, phone })
                    },
                },
                _ => unreached(),
            },
            BindPhoneState::AwaitingUpdate { phone } => match e {
                BindPhoneEvent::PhoneUpdated(Err(err)) => (BindPhoneState::Finished, BindPhoneAction::Finish(Err(err))),
                BindPhoneEvent::PhoneUpdated(Ok(())) => (BindPhoneState::Finished, BindPhoneAction::Finish(Ok(phone))),
                _ => unreached(),
            },
            BindPhoneState::Finished => unreached(),
        }
    }
}

// ============ profile ============

/// Judges the user that a profile request found: a disabled user is refused.
pub fn check_user_active(user: User) -> (r: AppResult<User>)
    ensures
        user.status == 0 ==> r matches Err(AppError::UserDisabled),
        user.status != 0 ==> r == Ok::<User, AppError>(user),
{
    if user.is_disabled() {
        Err(AppError::UserDisabled)
    } else {
        Ok(user)
    }
}


// ============ laws ============

/// The error that an event reports, if it reports one.
pub open spec fn spec_event_error(e: LoginEvent) -> Option<AppError> {
    match e {
        LoginEvent::WechatReplied(Err(err)) => Some(err),
        LoginEvent::TransactionOpened(Err(err)) => Some(err),
        LoginEvent::UserLookedUp(Err(err)) => Some(err),
        LoginEvent::UserCreated(Err(err)) => Some(err),
        LoginEvent::SessionStored(Err(err)) => Some(err),
        LoginEvent::Committed(Err(err)) => Some(err),
        _ => None,
    }
}

/// Every step of a login keeps what a login holds: the only user it ever holds
/// is an active one.
pub proof fn lemma_login_step_keeps_wf(
    s: LoginState,
    e: LoginEvent,
    jwt: JwtConfig,
    now_micros: i64,
    s2: LoginState,
    a: LoginAction,
)
    requires
        s.spec_wf(),
        spec_login_step(s, e, jwt, now_micros, s2, a),
    ensures
        s2.spec_wf(),
{
}

/// A login hands out a token only to an active user, only on the commit of its
/// transaction, and the token is the one signed for that user at that time.
pub proof fn lemma_token_only_for_active_user(
    s: LoginState,
    e: LoginEvent,
    jwt: JwtConfig,
    now_micros: i64,
    s2: LoginState,
    a: LoginAction,
)
    requires
        s.spec_wf(),
        spec_login_step(s, e, jwt, now_micros, s2, a),
        a matches LoginAction::Finish(Ok(_)),
    ensures
        s is AwaitingCommit,
        e matches LoginEvent::Committed(Ok(_)),
        a matches LoginAction::Finish(Ok((u, t))) && u.status != 0 && s == (LoginState::AwaitingCommit { user: u })
            && t@ == hs256_token(
                u.id,
                u.openid@,
                (spec_seconds(now_micros) + jwt.expires_in) as i64,
                spec_seconds(now_micros) as i64,
                jwt.secret@,
            ),
{
}

/// A disabled user, found or just created, is refused: the login ends with
/// `UserDisabled` and stores no session.
pub proof fn lemma_disabled_user_refused(
    s: LoginState,
    e: LoginEvent,
    jwt: JwtConfig,
    now_micros: i64,
    s2: LoginState,
    a: LoginAction,
    user: User,
)
    requires
        spec_login_step(s, e, jwt, now_micros, s2, a),
        e == LoginEvent::UserLookedUp(Ok(Some(user))) || e == LoginEvent::UserCreated(Ok(user)),
        user.status == 0,
    ensures
        s2 is Finished,
        a == LoginAction::Finish(Err(AppError::UserDisabled)),
{
}

/// A session is stored only for an active user: it carries that user's id and
/// the session key WeChat returned, and expires thirty days after the step.
pub proof fn lemma_session_only_for_active_user(
    s: LoginState,
    e: LoginEvent,
    jwt: JwtConfig,
    now_micros: i64,
    s2: LoginState,
    a: LoginAction,
)
    requires
        spec_login_step(s, e, jwt, now_micros, s2, a),
        a is StoreSession,
        now_micros <= i64::MAX - SESSION_LIFETIME_MICROS,
    ensures
        s2 matches LoginState::AwaitingSession { user } && user.status != 0 && a
            == LoginAction::StoreSession(spec_session_at(user.id, a->StoreSession_0.session_key, now_micros)),
        s matches LoginState::AwaitingLookup { session_key, .. } ==> a->StoreSession_0.session_key == session_key,
        s matches LoginState::AwaitingCreate { session_key } ==> a->StoreSession_0.session_key == session_key,
        a->StoreSession_0.expires_at == now_micros + SESSION_LIFETIME_MICROS,
        s2 matches LoginState::AwaitingSession { user } && a->StoreSession_0.user_id == user.id,
        e matches LoginEvent::UserLookedUp(Ok(Some(u))) ==> a->StoreSession_0.user_id == u.id,
        e matches LoginEvent::UserCreated(Ok(u)) ==> a->StoreSession_0.user_id == u.id,
{
}

/// Any failure that the outside world reports ends the login with that very error.
pub proof fn lemma_failure_ends_login(
    s: LoginState,
    e: LoginEvent,
    jwt: JwtConfig,
    now_micros: i64,
    s2: LoginState,
    a: LoginAction,
)
    requires
        spec_login_step(s, e, jwt, now_micros, s2, a),
        spec_event_error(e) is Some,
    ensures
        s2 is Finished,
        a == LoginAction::Finish(Err(spec_event_error(e)->0)),
{
}

/// The user is looked up by the openid that WeChat returned, and a new user is
/// created with WeChat's openid and unionid.
pub proof fn lemma_user_identity_from_wechat(
    resp: WechatCode2SessionResponse,
    jwt: JwtConfig,
    now1: i64,
    s1: LoginState,
    a1: LoginAction,
    now2: i64,
    s2: LoginState,
    a2: LoginAction,
    now3: i64,
    s3: LoginState,
    a3: LoginAction,
)
    requires
        spec_login_step(LoginState::AwaitingWechat, LoginEvent::WechatReplied(Ok(resp)), jwt, now1, s1, a1),
        a1 is OpenTransaction,
        spec_login_step(s1, LoginEvent::TransactionOpened(Ok(())), jwt, now2, s2, a2),
        spec_login_step(s2, LoginEvent::UserLookedUp(Ok(None)), jwt, now3, s3, a3),
    ensures
        !spec_reports_failure(resp.errcode),
        resp.openid is Some,
        a2 == (LoginAction::FindUser { openid: resp.openid->0 }),
        a3 == LoginAction::CreateUser(CreateUser { openid: resp.openid->0, unionid: resp.unionid }),
{
}

/// Binding stores on the requesting user exactly the number WeChat returned, and
/// reports that number only once it is stored.
pub proof fn lemma_bind_stores_wechat_number(
    user_id: u128,
    resp: WechatPhoneNumberResponse,
    s2: BindPhoneState,
    a2: BindPhoneAction,
    s3: BindPhoneState,
    a3: BindPhoneAction,
)
    requires
        spec_bind_step(BindPhoneState::AwaitingPhone { user_id }, BindPhoneEvent::PhoneReplied(Ok(resp)), s2, a2),
        a2 is UpdatePhone,
        spec_bind_step(s2, BindPhoneEvent::PhoneUpdated(Ok(())), s3, a3),
    ensures
        spec_pure_phone(resp) is Some,
        a2 == (BindPhoneAction::UpdatePhone { user_id, phone: spec_pure_phone(resp)->0 }),
        a3 == BindPhoneAction::Finish(Ok(spec_pure_phone(resp)->0)),
{
}

/// Binding reports a number only as the last step, after the store succeeded.
pub proof fn lemma_bind_success_only_after_store(
    s: BindPhoneState,
    e: BindPhoneEvent,
    s2: BindPhoneState,
    a: BindPhoneAction,
)
    requires
        spec_bind_step(s, e, s2, a),
        a matches BindPhoneAction::Finish(Ok(_)),
    ensures
        s is AwaitingUpdate,
        e matches BindPhoneEvent::PhoneUpdated(Ok(_)),
        a == BindPhoneAction::Finish(Ok(s->AwaitingUpdate_phone)),
{
}


/// `states`, `events`, `nows` and `actions` are a run of a login: each step goes
/// from `states[i]`, on `events[i]` at time `nows[i]`, to `states[i + 1]` with
/// the action `actions[i]`.
pub open spec fn spec_login_run(
    states: Seq<LoginState>,
    events: Seq<LoginEvent>,
    nows: Seq<i64>,
    actions: Seq<LoginAction>,
    jwt: JwtConfig,
) -> bool {
    &&& states.len() == events.len() + 1
    &&& nows.len() == events.len()
    &&& actions.len() == events.len()
    &&& forall|i: int| #![trigger events[i]] 0 <= i < events.len() ==> spec_login_step(
        states[i],
        events[i],
        jwt,
        nows[i],
        states[i + 1],
        actions[i],
    )
}

/// Whether `a` stores a session for the user `user_id`.
pub open spec fn spec_stores_session_for(a: LoginAction, user_id: u128) -> bool {
    a matches LoginAction::StoreSession(cs) && cs.user_id == user_id
}

/// What the first `m` actions of a run have done for the user that `states[m]` holds.
pub open spec fn spec_run_history(states: Seq<LoginState>, actions: Seq<LoginAction>, m: int) -> bool {
    match states[m] {
        LoginState::AwaitingSession { user } => exists|i: int|
            0 <= i < m && #[trigger] spec_stores_session_for(actions[i], user.id),
        LoginState::AwaitingCommit { user } => exists|i: int, j: int|
            0 <= i < j < m && #[trigger] spec_stores_session_for(actions[i], user.id) && #[trigger] actions[j] is Commit,
        _ => true,
    }
}

proof fn lemma_run_history(
    states: Seq<LoginState>,
    events: Seq<LoginEvent>,
    nows: Seq<i64>,
    actions: Seq<LoginAction>,
    jwt: JwtConfig,
    m: int,
)
    requires
        spec_login_run(states, events, nows, actions, jwt),
        states[0] is Start,
        0 <= m <= events.len(),
    ensures
        spec_run_history(states, actions, m),
    decreases m,
{
    if m > 0 {
        lemma_run_history(states, events, nows, actions, jwt, m - 1);
        assert(spec_login_step(states[m - 1], events[m - 1], jwt, nows[m - 1], states[m], actions[m - 1]));
        match states[m] {
            LoginState::AwaitingSession { user } => {
                assert(spec_stores_session_for(actions[m - 1], user.id));
            },
            LoginState::AwaitingCommit { user } => {
                assert(actions[m - 1] is Commit);
                let i = choose|i: int| 0 <= i < m - 1 && #[trigger] spec_stores_session_for(actions[i], user.id);
                assert(spec_stores_session_for(actions[i], user.id) && actions[m - 1] is Commit);
            },
            _ => {},
        }
    }
}

/// A login that ends with a token has, before that, stored a session for the
/// user and committed it; the user is active; and nothing follows the end.
pub proof fn lemma_successful_login_stored_session(
    states: Seq<LoginState>,
    events: Seq<LoginEvent>,
    nows: Seq<i64>,
    actions: Seq<LoginAction>,
    jwt: JwtConfig,
    k: int,
)
    requires
        spec_login_run(states, events, nows, actions, jwt),
        states[0] is Start,
        0 <= k < actions.len(),
        actions[k] matches LoginAction::Finish(Ok(_)),
    ensures
        k == actions.len() - 1,
        actions[k] matches LoginAction::Finish(Ok((u, _))) && u.status != 0 && exists|i: int, j: int|
            0 <= i < j < k && #[trigger] spec_stores_session_for(actions[i], u.id) && #[trigger] actions[j] is Commit,
{
    lemma_run_history(states, events, nows, actions, jwt, k);
    assert(spec_login_step(states[k], events[k], jwt, nows[k], states[k + 1], actions[k]));
    lemma_wf_along_run(states, events, nows, actions, jwt, k);
    if k + 1 < actions.len() {
        assert(spec_login_step(states[k + 1], events[k + 1], jwt, nows[k + 1], states[k + 2], actions[k + 1]));
    }
}

/// Every state of a run from the start holds only active users.
pub proof fn lemma_wf_along_run(
    states: Seq<LoginState>,
    events: Seq<LoginEvent>,
    nows: Seq<i64>,
    actions: Seq<LoginAction>,
    jwt: JwtConfig,
    m: int,
)
    requires
        spec_login_run(states, events, nows, actions, jwt),
        states[0] is Start,
        0 <= m <= events.len(),
    ensures
        states[m].spec_wf(),
    decreases m,
{
    if m > 0 {
        lemma_wf_along_run(states, events, nows, actions, jwt, m - 1);
        assert(spec_login_step(states[m - 1], events[m - 1], jwt, nows[m - 1], states[m], actions[m - 1]));
    }
}


/// A WeChat reply is flagged as lacking its session key only when it has none, and
/// a reply that WeChat reports as good, with an openid and no session key, is
/// always flagged; whether it carries a unionid plays no part.
pub proof fn lemma_flagged_reply_lacks_key(e: LoginEvent)
    ensures
        LoginState::spec_reply_lacks_session_key(e) ==> (e matches LoginEvent::WechatReplied(Ok(resp))
            && resp.session_key is None),
        (e matches LoginEvent::WechatReplied(Ok(resp)) && resp.session_key is Some)
            ==> !LoginState::spec_reply_lacks_session_key(e),
        (e matches LoginEvent::WechatReplied(Ok(resp)) && (resp.errcode is None || resp.errcode == Some(0i32))
            && resp.openid is Some && resp.session_key is None) ==> LoginState::spec_reply_lacks_session_key(e),
        !(e is WechatReplied) ==> !LoginState::spec_reply_lacks_session_key(e),
{
}


/// `states`, `events` and `actions` are a run of a phone binding: each step goes
/// from `states[i]`, on `events[i]`, to `states[i + 1]` with the action `actions[i]`.
pub open spec fn spec_bind_run(states: Seq<BindPhoneState>, events: Seq<BindPhoneEvent>, actions: Seq<BindPhoneAction>) -> bool {
    &&& states.len() == events.len() + 1
    &&& actions.len() == events.len()
    &&& forall|i: int| #![trigger events[i]] 0 <= i < events.len() ==> spec_bind_step(
        states[i],
        events[i],
        states[i + 1],
        actions[i],
    )
}

/// What the first `m` steps of a binding started for `user_id` with `code` have
/// kept: the user and the code, and, once the number is known, the update of that
/// number on that user.
pub open spec fn spec_bind_history(
    states: Seq<BindPhoneState>,
    actions: Seq<BindPhoneAction>,
    user_id: u128,
    code: String,
    m: int,
) -> bool {
    match states[m] {
        BindPhoneState::Start { user_id: u, code: c } => u == user_id && c == code,
        BindPhoneState::AwaitingAccessToken { user_id: u, code: c } => u == user_id && c == code,
        BindPhoneState::AwaitingPhone { user_id: u } => u == user_id,
        BindPhoneState::AwaitingUpdate { phone } => exists|j: int|
            0 <= j < m && #[trigger] actions[j] == (BindPhoneAction::UpdatePhone { user_id, phone }),
        BindPhoneState::Finished => true,
    }
}

proof fn lemma_bind_history(
    states: Seq<BindPhoneState>,
    events: Seq<BindPhoneEvent>,
    actions: Seq<BindPhoneAction>,
    user_id: u128,
    code: String,
    m: int,
)
    requires
        spec_bind_run(states, events, actions),
        states[0] == (BindPhoneState::Start { user_id, code }),
        0 <= m <= events.len(),
    ensures
        spec_bind_history(states, actions, user_id, code, m),
    decreases m,
{
    if m > 0 {
        lemma_bind_history(states, events, actions, user_id, code, m - 1);
        assert(spec_bind_step(states[m - 1], events[m - 1], states[m], actions[m - 1]));
        if let BindPhoneState::AwaitingUpdate { phone } = states[m] {
            assert(actions[m - 1] == (BindPhoneAction::UpdatePhone { user_id, phone }));
        }
    }
}

/// A binding started for `user_id` with `code` asks WeChat about exactly that
/// code, stores a number only on exactly that user, and reports a number only
/// after asking to store that very number on that user.
pub proof fn lemma_bind_run_serves_requester(
    states: Seq<BindPhoneState>,
    events: Seq<BindPhoneEvent>,
    actions: Seq<BindPhoneAction>,
    user_id: u128,
    code: String,
    k: int,
)
    requires
        spec_bind_run(states, events, actions),
        states[0] == (BindPhoneState::Start { user_id, code }),
        0 <= k < actions.len(),
    ensures
        actions[k] matches BindPhoneAction::UpdatePhone { user_id: u, .. } ==> u == user_id,
        actions[k] matches BindPhoneAction::RequestPhone { code: c, .. } ==> c == code,
        actions[k] matches BindPhoneAction::Finish(Ok(phone)) ==> exists|j: int|
            0 <= j < k && #[trigger] actions[j] == (BindPhoneAction::UpdatePhone { user_id, phone }),
{
    lemma_bind_history(states, events, actions, user_id, code, k);
    assert(spec_bind_step(states[k], events[k], states[k + 1], actions[k]));
}

/// Whether the event is a WeChat reply that carries `session_key` and `openid`.
pub open spec fn spec_reply_carries(e: LoginEvent, session_key: String, openid: String) -> bool {
    e matches LoginEvent::WechatReplied(Ok(resp)) && resp.session_key == Some(session_key)
        && resp.openid == Some(openid)
}

/// What the first `m` steps of a login run have kept of WeChat's reply: the
/// session key (and the openid) that the states hold are those of a reply that the
/// run received, and a user held for a session got that session with that key.
pub open spec fn spec_key_history(states: Seq<LoginState>, events: Seq<LoginEvent>, actions: Seq<LoginAction>, m: int) -> bool {
    match states[m] {
        LoginState::AwaitingTransaction { openid, session_key, .. } => exists|i: int|
            0 <= i < m && #[trigger] spec_reply_carries(events[i], session_key, openid),
        LoginState::AwaitingLookup { openid, session_key, .. } => exists|i: int|
            0 <= i < m && #[trigger] spec_reply_carries(events[i], session_key, openid),
        LoginState::AwaitingCreate { session_key } => exists|i: int, o: String|
            0 <= i < m && #[trigger] spec_reply_carries(events[i], session_key, o),
        _ => true,
    }
}

proof fn lemma_key_history(
    states: Seq<LoginState>,
    events: Seq<LoginEvent>,
    nows: Seq<i64>,
    actions: Seq<LoginAction>,
    jwt: JwtConfig,
    m: int,
)
    requires
        spec_login_run(states, events, nows, actions, jwt),
        states[0] is Start,
        0 <= m <= events.len(),
    ensures
        spec_key_history(states, events, actions, m),
    decreases m,
{
    if m > 0 {
        lemma_key_history(states, events, nows, actions, jwt, m - 1);
        assert(spec_login_step(states[m - 1], events[m - 1], jwt, nows[m - 1], states[m], actions[m - 1]));
        match states[m] {
            LoginState::AwaitingTransaction { openid, session_key, .. } => {
                assert(spec_reply_carries(events[m - 1], session_key, openid));
            },
            LoginState::AwaitingLookup { openid, session_key, .. } => {
                let i = choose|i: int| 0 <= i < m - 1 && #[trigger] spec_reply_carries(events[i], session_key, openid);
                assert(spec_reply_carries(events[i], session_key, openid));
            },
            LoginState::AwaitingCreate { session_key } => {
                if let LoginState::AwaitingLookup { openid, .. } = states[m - 1] {
                    let i = choose|i: int| 0 <= i < m - 1 && #[trigger] spec_reply_carries(events[i], session_key, openid);
                    assert(spec_reply_carries(events[i], session_key, openid));
                }
            },
            _ => {},
        }
    }
}

/// In a login run, every session stored carries the session key of a WeChat reply
/// that the run received, and every lookup and new user uses that reply's openid;
/// this holds for a new user as for a returning one.
pub proof fn lemma_session_key_from_wechat(
    states: Seq<LoginState>,
    events: Seq<LoginEvent>,
    nows: Seq<i64>,
    actions: Seq<LoginAction>,
    jwt: JwtConfig,
    k: int,
)
    requires
        spec_login_run(states, events, nows, actions, jwt),
        states[0] is Start,
        0 <= k < actions.len(),
    ensures
        actions[k] matches LoginAction::StoreSession(cs) ==> exists|i: int, o: String|
            0 <= i < k && #[trigger] spec_reply_carries(events[i], cs.session_key, o),
        actions[k] matches LoginAction::FindUser { openid } ==> exists|i: int, key: String|
            0 <= i < k && #[trigger] spec_reply_carries(events[i], key, openid),
        actions[k] matches LoginAction::CreateUser(cu) ==> exists|i: int, key: String|
            0 <= i < k && #[trigger] spec_reply_carries(events[i], key, cu.openid),
{
    lemma_key_history(states, events, nows, actions, jwt, k);
    assert(spec_login_step(states[k], events[k], jwt, nows[k], states[k + 1], actions[k]));
    match states[k] {
        LoginState::AwaitingTransaction { openid, session_key, .. } => {
            let i = choose|i: int| 0 <= i < k && #[trigger] spec_reply_carries(events[i], session_key, openid);
            assert(spec_reply_carries(events[i], session_key, openid));
            if let LoginAction::FindUser { openid: o2 } = actions[k] {
                assert(o2 == openid);
                assert(spec_reply_carries(events[i], session_key, o2));
            }
        },
        LoginState::AwaitingLookup { openid, session_key, .. } => {
            let i = choose|i: int| 0 <= i < k && #[trigger] spec_reply_carries(events[i], session_key, openid);
            assert(spec_reply_carries(events[i], session_key, openid));
            if let LoginAction::StoreSession(cs) = actions[k] {
                assert(cs.session_key == session_key);
                assert(spec_reply_carries(events[i], cs.session_key, openid));
            }
            if let LoginAction::CreateUser(cu) = actions[k] {
                assert(cu.openid == openid);
                assert(spec_reply_carries(events[i], session_key, cu.openid));
            }
        },
        LoginState::AwaitingCreate { session_key } => {
            let (i, o) = choose|i: int, o: String| 0 <= i < k && #[trigger] spec_reply_carries(events[i], session_key, o);
            assert(spec_reply_carries(events[i], session_key, o));
            if let LoginAction::StoreSession(cs) = actions[k] {
                assert(cs.session_key == session_key);
                assert(spec_reply_carries(events[i], cs.session_key, o));
            }
        },
        _ => {},
    }
}


/// The phone number is asked for with the access token that WeChat gave, for the
/// code that the binding was started with.
pub proof fn lemma_phone_asked_with_wechat_token(
    user_id: u128,
    code: String,
    resp: WechatAccessTokenResponse,
    s2: BindPhoneState,
    a: BindPhoneAction,
)
    requires
        spec_bind_step(BindPhoneState::AwaitingAccessToken { user_id, code }, BindPhoneEvent::AccessTokenReplied(Ok(resp)), s2, a),
        a is RequestPhone,
    ensures
        resp.access_token == Some(a->RequestPhone_access_token),
        a->RequestPhone_code == code,
        s2 == (BindPhoneState::AwaitingPhone { user_id }),
{
}

} // verus!
