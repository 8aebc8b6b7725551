use vstd::prelude::*;
use vstd::string::*;

verus! {

/// Errors of the server, with the details of outside failures held as text.
#[derive(Debug, Clone)]
pub enum AppError {
    /// A database failure, with the driver's description.
    Database(String),
    /// A failed outgoing HTTP request, with the client's description.
    Request(String),
    Config(String),
    Unauthorized,
    InvalidToken,
    TokenExpired,
    UserNotFound,
    UserDisabled,
    WechatApi(String),
    PhoneGetFailed,
    Validation(String),
    Internal(String),
}

pub type AppResult<T> = Result<T, AppError>;

impl AppError {
    /// The HTTP status that answers a request failing with this error.
    pub open spec fn spec_status(self) -> u16 {
        match self {
            AppError::Database(_) => 500,
            AppError::Request(_) => 502,
            AppError::Config(_) => 500,
            AppError::Unauthorized => 401,
            AppError::InvalidToken => 401,
            AppError::TokenExpired => 401,
            AppError::UserNotFound => 404,
            AppError::UserDisabled => 403,
            AppError::WechatApi(_) => 502,
            AppError::PhoneGetFailed => 400,
            AppError::Validation(_) => 400,
            AppError::Internal(_) => 500,
        }
    }

    /// The message shown to the client: a fixed text, or the error's own text for
    /// WeChat and validation failures.
    pub open spec fn spec_public_message(self) -> Seq<char> {
        match self {
            AppError::Database(_) => "数据库错误"@,
            AppError::Request(_) => "外部请求失败"@,
            AppError::Config(_) => "配置错误"@,
            AppError::Unauthorized => "未授权"@,
            AppError::InvalidToken => "Token无效"@,
            AppError::TokenExpired => "Token已过期"@,
            AppError::UserNotFound => "用户不存在"@,
            AppError::UserDisabled => "用户已被禁用"@,
            AppError::WechatApi(msg) => msg@,
            AppError::PhoneGetFailed => "手机号获取失败"@,
            AppError::Validation(msg) => msg@,
            AppError::Internal(_) => "内部错误"@,
        }
    }

    /// The error's full description, as it is logged.
    pub open spec fn spec_description(self) -> Seq<char> {
        match self {
            AppError::Database(msg) => "数据库错误: "@ + msg@,
            AppError::Request(msg) => "请求错误: "@ + msg@,
            AppError::Config(msg) => "配置错误: "@ + msg@,
            AppError::Unauthorized => "未授权"@,
            AppError::InvalidToken => "Token无效"@,
            AppError::TokenExpired => "Token已过期"@,
            AppError::UserNotFound => "用户不存在"@,
            AppError::UserDisabled => "用户已被禁用"@,
            AppError::WechatApi(msg) => "微信API错误: "@ + msg@,
            AppError::PhoneGetFailed => "手机号获取失败"@,
            AppError::Validation(msg) => "参数验证失败: "@ + msg@,
            AppError::Internal(msg) => "内部错误: "@ + msg@,
        }
    }

    /// The line logged as an error when a request fails with this error: only
    /// failures of outside systems and internal failures are logged, with their details.
    pub open spec fn spec_log_line(self) -> Option<Seq<char>> {
        match self {
            AppError::Database(msg) => Some("Database error: "@ + msg@),
            AppError::Request(msg) => Some("Request error: "@ + msg@),
            AppError::Config(msg) => Some("Config error: "@ + msg@),
            AppError::WechatApi(msg) => Some("Wechat API error: "@ + msg@),
            AppError::Internal(msg) => Some("Internal error: "@ + msg@),
            _ => None,
        }
    }

    pub fn status_code(&self) -> (r: u16)
        ensures
            r == self.spec_status(),
    {
        match self {
            AppError::Database(_) => 500,
            AppError::Request(_) => 502,
            AppError::Config(_) => 500,
            AppError::Unauthorized => 401,
            AppError::InvalidToken => 401,
            AppError::TokenExpired => 401,
            AppError::UserNotFound => 404,
            AppError::UserDisabled => 403,
            AppError::WechatApi(_) => 502,
            AppError::PhoneGetFailed => 400,
            AppError::Validation(_) => 400,
            AppError::Internal(_) => 500,
        }
    }

    pub fn public_message(&self) -> (r: String)
        ensures
            r@ == self.spec_public_message(),
    {
        match self {
            AppError::Database(_) => String::from_str("数据库错误"),
            AppError::Request(_) => String::from_str("外部请求失败"),
            AppError::Config(_) => String::from_str("配置错误"),
            AppError::Unauthorized => String::from_str("未授权"),
            AppError::InvalidToken => String::from_str("Token无效"),
            AppError::TokenExpired => String::from_str("Token已过期"),
            AppError::UserNotFound => String::from_str("用户不存在"),
            AppError::UserDisabled => String::from_str("用户已被禁用"),
            AppError::WechatApi(msg) => msg.clone(),
            AppError::PhoneGetFailed => String::from_str("手机号获取失败"),
            AppError::Validation(msg) => msg.clone(),
            AppError::Internal(_) => String::from_str("内部错误"),
        }
    }

    pub fn description(&self) -> (r: String)
        ensures
            r@ == self.spec_description(),
    {
        match self {
            AppError::Database(msg) => String::from_str("数据库错误: ").concat(msg.as_str()),
            AppError::Request(msg) => String::from_str("请求错误: ").concat(msg.as_str()),
            AppError::Config(msg) => String::from_str("配置错误: ").concat(msg.as_str()),
            AppError::Unauthorized => String::from_str("未授权"),
            AppError::InvalidToken => String::from_str("Token无效"),
            AppError::TokenExpired => String::from_str("Token已过期"),
            AppError::UserNotFound => String::from_str("用户不存在"),
            AppError::UserDisabled => String::from_str("用户已被禁用"),
            AppError::WechatApi(msg) => String::from_str("微信API错误: ").concat(msg.as_str()),
            AppError::PhoneGetFailed => String::from_str("手机号获取失败"),
            AppError::Validation(msg) => String::from_str("参数验证失败: ").concat(msg.as_str()),
            AppError::Internal(msg) => String::from_str("内部错误: ").concat(msg.as_str()),
        }
    }

    pub fn log_line(&self) -> (r: Option<String>)
        ensures
            r is Some <==> self.spec_log_line() is Some,
            r matches Some(l) ==> l@ == self.spec_log_line()->0,
    {
        match self {
            AppError::Database(msg) => Some(String::from_str("Database error: ").concat(msg.as_str())),
            AppError::Request(msg) => Some(String::from_str("Request error: ").concat(msg.as_str())),
            AppError::Config(msg) => Some(String::from_str("Config error: ").concat(msg.as_str())),
            AppError::WechatApi(msg) => Some(String::from_str("Wechat API error: ").concat(msg.as_str())),
            AppError::Internal(msg) => Some(String::from_str("Internal error: ").concat(msg.as_str())),
            _ => None,
        }
    }
}

/// Every error is answered with a client error (4xx) or a server error (5xx).
pub proof fn lemma_status_is_an_error(e: AppError)
    ensures
        400 <= e.spec_status() < 600,
{
}

/// Database, request, configuration and internal failures never show their
/// details to the client: two such errors of one kind get the same answer.
pub proof fn lemma_internal_details_hidden(a: AppError, b: AppError)
    requires
        (a is Database && b is Database) || (a is Request && b is Request)
            || (a is Config && b is Config) || (a is Internal && b is Internal),
    ensures
        a.spec_public_message() == b.spec_public_message(),
        a.spec_status() == b.spec_status(),
{
}

} // verus!
