pub mod email_log;
pub mod login_challenge;
pub mod user;
