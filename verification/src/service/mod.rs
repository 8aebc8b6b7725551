pub mod auth;
pub mod wechat;
