//! The configuration that a service is built with and never changes.
use vstd::prelude::*;
use vstd::string::StringExecFns;

verus! {

/// Whether a login must carry a captcha token.
#[derive(Debug, PartialEq, Eq)]
pub enum Captcha {
    /// No captcha is asked for.
    Disabled,
    /// Every login must carry a token that the provider accepts for this secret.
    HCaptcha { secret: String },
}

/// One email template.
#[derive(Debug, PartialEq, Eq)]
pub struct Template {
    pub title: String,
    /// The plain-text body; `{{url}}` marks where the link goes.
    pub text: String,
    /// The address that the link points to.
    pub url: String,
    /// The rich-text body, if there is one.
    pub html: Option<String>,
}

/// The templates of the mails that the service sends.
#[derive(Debug, PartialEq, Eq)]
pub struct Templates {
    pub verify: Template,
    pub reset: Template,
    pub welcome: Option<Template>,
}

/// How to reach the mail server.
#[derive(Debug, PartialEq, Eq)]
pub struct SMTPSettings {
    pub from: String,
    pub reply_to: Option<String>,
    pub host: String,
    pub port: Option<i32>,
    pub username: String,
    pub password: String,
}

/// For how many seconds the links in a mail stay good.
#[derive(Debug, Clone, Copy, PartialEq, Eq)]
pub struct EmailExpiry {
    pub expire_verification: i64,
    pub expire_password_reset: i64,
}

/// A verification link is good for a day.
pub const DEFAULT_EXPIRE_VERIFICATION: i64 = 86400;

/// A password-reset link is good for an hour.
pub const DEFAULT_EXPIRE_PASSWORD_RESET: i64 = 3600;

impl Default for EmailExpiry {
    fn default() -> (r: Self)
        ensures
            r.expire_verification == DEFAULT_EXPIRE_VERIFICATION,
            r.expire_password_reset == DEFAULT_EXPIRE_PASSWORD_RESET,
    {
        EmailExpiry {
            expire_verification: DEFAULT_EXPIRE_VERIFICATION,
            expire_password_reset: DEFAULT_EXPIRE_PASSWORD_RESET,
        }
    }
}

/// Whether new accounts must confirm their email address.
#[derive(Debug, PartialEq, Eq)]
pub enum EmailVerification {
    Disabled,
    Enabled { smtp: SMTPSettings, expiry: EmailExpiry, templates: Templates },
}

/// The configuration of a service.
#[derive(Debug, PartialEq, Eq)]
pub struct Config {
    pub captcha: Captcha,
    pub email_verification: EmailVerification,
}

impl Default for Config {
    /// No captcha and no email verification.
    fn default() -> (r: Self)
        ensures
            r.captcha is Disabled,
            r.email_verification is Disabled,
    {
        Config { captcha: Captcha::Disabled, email_verification: EmailVerification::Disabled }
    }
}

/// Whether a template is the plain one with this title and this text, which
/// links to `https://example.com`.
pub open spec fn is_plain_template(t: Template, title: Seq<char>, text: Seq<char>) -> bool {
    &&& t.title@ == title
    &&& t.text@ == text
    &&& t.url@ == "https://example.com"@
    &&& t.html is None
}

/// Whether a configuration is the one that `Config::with_smtp` makes of these
/// four values.
pub open spec fn is_smtp_config(
    c: Config,
    from: Seq<char>,
    host: Seq<char>,
    username: Seq<char>,
    password: Seq<char>,
) -> bool {
    &&& c.captcha is Disabled
    &&& c.email_verification matches EmailVerification::Enabled { smtp, expiry, templates }
    &&& smtp.from@ == from
    &&& smtp.reply_to matches Some(reply_to)
    &&& reply_to@ == "support@revolt.chat"@
    &&& smtp.host@ == host
    &&& smtp.port is None
    &&& smtp.username@ == username
    &&& smtp.password@ == password
    &&& expiry.expire_verification == DEFAULT_EXPIRE_VERIFICATION
    &&& expiry.expire_password_reset == DEFAULT_EXPIRE_PASSWORD_RESET
    &&& is_plain_template(
        templates.verify,
        "Verify your email!"@,
        "Verify your email here: {{url}}"@,
    )
    &&& is_plain_template(
        templates.reset,
        "Reset your password!"@,
        "Reset your password here: {{url}}"@,
    )
    &&& templates.welcome is None
}

impl Config {
    /// A configuration that verifies email addresses through the given mail
    /// account, with plain templates and the default expiry, and is otherwise
    /// the default one.
    pub fn with_smtp(from: String, host: String, username: String, password: String) -> (r: Config)
        ensures
            is_smtp_config(r, from@, host@, username@, password@),
    {
        Config {
            email_verification: EmailVerification::Enabled {
                smtp: SMTPSettings {
                    from,
                    reply_to: Some(String::from_str("support@revolt.chat")),
                    host,
                    port: None,
                    username,
                    password,
                },
                expiry: EmailExpiry::default(),
                templates: Templates {
                    verify: Template {
                        title: String::from_str("Verify your email!"),
                        text: String::from_str("Verify your email here: {{url}}"),
                        url: String::from_str("https://example.com"),
                        html: None,
                    },
                    reset: Template {
                        title: String::from_str("Reset your password!"),
                        text: String::from_str("Reset your password here: {{url}}"),
                        url: String::from_str("https://example.com"),
                        html: None,
                    },
                    welcome: None,
                },
            },
            captcha: Captcha::Disabled,
        }
    }
}

} // verus!
