//! The verification mail, and the values that the account service
//! exchanges with the application.

use vstd::prelude::*;
use crate::im::text::{concat2, concat3};

verus! {

/// Holds the secret that messages to the account service are sealed with.
#[derive(Debug, Clone)]
pub struct ClientCrypto {
    secret: String,
}

impl ClientCrypto {
    /// The secret.
    pub closed spec fn secret(&self) -> Seq<char> {
        self.secret@
    }

    /// A sealer with `secret`.
    pub fn with_secret(secret: &str) -> (c: ClientCrypto)
        ensures
            c.secret() == secret@,
    {
        ClientCrypto { secret: secret.to_string() }
    }

    /// The secret.
    pub fn secret_text(&self) -> (s: &str)
        ensures
            s@ == self.secret(),
    {
        self.secret.as_str()
    }
}

/// The mail server that verification mails go through.
#[derive(Debug, Clone)]
pub struct SmtpConfig {
    pub host: String,
    pub port: u16,
    pub secure: bool,
    pub username: String,
    pub password: String,
}

/// The account service's answer to a request for the mail server.
#[derive(Debug, Clone)]
pub struct SmtpConfigResponse {
    pub code: i32,
    pub data: Option<SmtpConfig>,
    pub success: bool,
    pub message: Option<String>,
}

/// A request for a verification code.
#[derive(Debug, Clone)]
pub struct VerifyCodeRequest {
    pub email: String,
    pub user_id: String,
}

/// The answer to a request for a verification code.
#[derive(Debug, Clone)]
pub struct VerifyCodeResponse {
    pub success: bool,
    pub code_id: Option<String>,
    pub expires_at: Option<String>,
    pub message: Option<String>,
}

/// What stands before the code in the verification mail.
pub open spec fn template_head() -> Seq<char> {
    "<!DOCTYPE html>\n<html>\n<head>\n    <meta charset=\"UTF-8\">\n</head>\n<body style=\"font-family: Arial, sans-serif; padding: 20px;\">\n    <h2>TinyClaw</h2>\n    <p>Your security code is:</p>\n    <h1 style=\"color: #333; font-size: 32px; letter-spacing: 4px;\">"@
}

/// What stands behind the code in the verification mail.
pub open spec fn template_tail() -> Seq<char> {
    "</h1>\n    <p style=\"color: #666; font-size: 12px;\">This code expires in 5 minutes.</p>\n</body>\n</html>"@
}

/// The verification mail for `code` as a web page.
pub fn get_verification_email_template(code: &str) -> (page: String)
    ensures
        page@ == template_head() + code@ + template_tail(),
{
    concat3(
        "<!DOCTYPE html>\n<html>\n<head>\n    <meta charset=\"UTF-8\">\n</head>\n<body style=\"font-family: Arial, sans-serif; padding: 20px;\">\n    <h2>TinyClaw</h2>\n    <p>Your security code is:</p>\n    <h1 style=\"color: #333; font-size: 32px; letter-spacing: 4px;\">",
        code,
        "</h1>\n    <p style=\"color: #666; font-size: 12px;\">This code expires in 5 minutes.</p>\n</body>\n</html>",
    )
}

/// The verification mail for `code` as plain text.
pub fn get_verification_email_text(code: &str) -> (text: String)
    ensures
        text@ == code@ + "\n\nExpires in 5 minutes."@,
{
    concat2(code, "\n\nExpires in 5 minutes.")
}

} // verus!
