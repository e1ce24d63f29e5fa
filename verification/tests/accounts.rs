use rauth::config::{Captcha, Config, EmailExpiry, EmailVerification};
use rauth::database::definition::AbstractDatabase;
use rauth::database::memory::MemoryDb;
use rauth::database::Database;
use rauth::hashing::{hash_password, verify_password};
use rauth::logic::{new_account, Auth, CaptchaRequest};
use rauth::util::Error;

fn fresh_auth() -> Auth {
    Auth::new(Database::Memory(MemoryDb::new()), Config::default())
}

#[test]
fn created_account_is_stored_with_a_hash() {
    let mut auth = fresh_auth();

    let account =
        auth.create_account("example@validemail.com".into(), "password".into(), true).unwrap();

    assert_eq!(account.email, "example@validemail.com");
    assert!(account.verified);
    assert!(account.sessions.is_empty());
    assert_eq!(account.id.len(), 26);
    let hash = account.password_hash.clone().unwrap();
    assert_ne!(hash, "password");
    assert!(hash.starts_with("$argon2"));
    assert!(verify_password(&hash, "password"));
    assert!(!verify_password(&hash, "passwore"));
    let stored = auth.db.find_account_by_email(&"example@validemail.com".to_string());
    assert_eq!(stored, Some(account));
}

#[test]
fn address_is_stored_in_lower_case() {
    let mut auth = fresh_auth();

    let account =
        auth.create_account("Example@ValidEmail.COM".into(), "password".into(), false).unwrap();

    assert_eq!(account.email, "example@validemail.com");
}

#[test]
fn taken_address_is_refused() {
    let mut auth = fresh_auth();
    auth.create_account("example@validemail.com".into(), "password".into(), false).unwrap();

    let same = auth.create_account("example@validemail.com".into(), "other".into(), false);
    let other_case = auth.create_account("EXAMPLE@validemail.com".into(), "other".into(), false);

    assert_eq!(same, Err(Error::AccountAlreadyExists));
    assert_eq!(other_case, Err(Error::AccountAlreadyExists));
    assert_eq!(Error::AccountAlreadyExists.status(), 409);
    assert_eq!(auth.db.len(), 1);
}

#[test]
fn malformed_address_is_not_registered() {
    let mut auth = fresh_auth();

    let res = auth.create_account("no-at-sign".into(), "password".into(), false);

    assert_eq!(res, Err(Error::InvalidEmail));
    assert_eq!(auth.db.len(), 0);
}

#[test]
fn offline_store_registers_nobody() {
    let mut auth = Auth::new(Database::default(), Config::default());

    let res = auth.create_account("example@validemail.com".into(), "password".into(), false);

    assert_eq!(res, Err(Error::DatabaseError { operation: "insert_one", with: "account" }));
}

#[test]
fn two_accounts_get_different_ids_and_salts() {
    let mut auth = fresh_auth();

    let a = auth.create_account("a@validemail.com".into(), "password".into(), false).unwrap();
    let b = auth.create_account("b@validemail.com".into(), "password".into(), false).unwrap();

    assert_ne!(a.id, b.id);
    assert_ne!(a.password_hash, b.password_hash);
}

#[test]
fn validate_email_classifies() {
    let auth = fresh_auth();

    assert_eq!(auth.validate_email(&"example@validemail.com".to_string()), Ok(()));
    assert_eq!(auth.validate_email(&"example".to_string()), Err(Error::InvalidEmail));
    assert_eq!(auth.validate_email(&"".to_string()), Err(Error::InvalidEmail));
}

#[test]
fn captcha_is_not_asked_for_by_default() {
    let auth = fresh_auth();

    assert_eq!(auth.check_captcha(&None, false), Ok(()));
    assert_eq!(auth.check_captcha(&Some("token".to_string()), false), Ok(()));
    assert_eq!(auth.captcha_request(&Some("token".to_string())), None);
}

#[test]
fn captcha_needs_an_accepted_token() {
    let config = Config {
        captcha: Captcha::HCaptcha { secret: "s3cret".to_string() },
        email_verification: EmailVerification::Disabled,
    };
    let auth = Auth::new(Database::default(), config);
    let token = Some("token".to_string());

    assert_eq!(auth.check_captcha(&None, true), Err(Error::CaptchaFailed));
    assert_eq!(auth.check_captcha(&token, false), Err(Error::CaptchaFailed));
    assert_eq!(auth.check_captcha(&token, true), Ok(()));
    assert_eq!(Error::CaptchaFailed.status(), 400);
    assert_eq!(auth.captcha_request(&None), None);
    assert_eq!(
        auth.captcha_request(&token),
        Some(CaptchaRequest { secret: "s3cret".to_string(), response: "token".to_string() })
    );
}

#[test]
fn hash_verifies_its_own_password_only() {
    let hash = hash_password("password", "saltsaltsalt").unwrap();

    assert!(verify_password(&hash, "password"));
    assert!(!verify_password(&hash, "Password"));
    assert!(!verify_password(&hash, ""));
}

#[test]
fn hash_depends_on_the_salt() {
    let one = hash_password("password", "saltsaltsalt").unwrap();
    let same = hash_password("password", "saltsaltsalt").unwrap();
    let two = hash_password("password", "pepperpepper").unwrap();

    assert_eq!(one, same);
    assert_ne!(one, two);
}

#[test]
fn short_salt_is_an_internal_error() {
    assert_eq!(hash_password("password", "short"), Err(Error::InternalError));
    assert_eq!(hash_password("password", "1234567"), Err(Error::InternalError));
    assert!(hash_password("password", "12345678").is_ok());
    assert_eq!(Error::InternalError.status(), 500);
}

#[test]
fn known_hash_is_verified() {
    let encoded = "$argon2i$v=19$m=4096,t=3,p=1$c29tZXNhbHQ$iWh06vD8Fy27wf9npn6FXWiCX4K6pW6Ue1Bnzz07Z8A";

    assert!(verify_password(encoded, "password"));
    assert!(!verify_password(encoded, "wrong"));
}

#[test]
fn undecodable_hash_accepts_nothing() {
    assert!(!verify_password("not a hash", "password"));
    assert!(!verify_password("", ""));
}

#[test]
fn default_configuration_asks_for_nothing() {
    let config = Config::default();

    assert_eq!(config.captcha, Captcha::Disabled);
    assert_eq!(config.email_verification, EmailVerification::Disabled);
}

#[test]
fn default_expiry_is_a_day_and_an_hour() {
    let expiry = EmailExpiry::default();

    assert_eq!(expiry.expire_verification, 86400);
    assert_eq!(expiry.expire_password_reset, 3600);
}

#[test]
fn smtp_configuration_carries_the_mail_account() {
    let config = Config::with_smtp(
        "noreply@example.com".to_string(),
        "smtp.example.com".to_string(),
        "user".to_string(),
        "pass".to_string(),
    );

    assert_eq!(config.captcha, Captcha::Disabled);
    match config.email_verification {
        EmailVerification::Enabled { smtp, expiry, templates } => {
            assert_eq!(smtp.from, "noreply@example.com");
            assert_eq!(smtp.reply_to, Some("support@revolt.chat".to_string()));
            assert_eq!(smtp.host, "smtp.example.com");
            assert_eq!(smtp.port, None);
            assert_eq!(smtp.username, "user");
            assert_eq!(smtp.password, "pass");
            assert_eq!(expiry, EmailExpiry::default());
            assert_eq!(templates.verify.title, "Verify your email!");
            assert_eq!(templates.verify.text, "Verify your email here: {{url}}");
            assert_eq!(templates.verify.url, "https://example.com");
            assert_eq!(templates.verify.html, None);
            assert_eq!(templates.reset.title, "Reset your password!");
            assert_eq!(templates.reset.text, "Reset your password here: {{url}}");
            assert_eq!(templates.reset.url, "https://example.com");
            assert_eq!(templates.reset.html, None);
            assert_eq!(templates.welcome, None);
        }
        EmailVerification::Disabled => panic!("email verification is off"),
    }
}

#[test]
fn new_account_is_ready_to_insert() {
    let account =
        new_account("example@validemail.com".to_string(), &"password".to_string(), true).unwrap();

    assert_eq!(account.email, "example@validemail.com");
    assert!(account.verified);
    assert!(account.sessions.is_empty());
    assert_eq!(account.id.len(), 26);
    assert!(verify_password(&account.password_hash.clone().unwrap(), "password"));

    let mut db = Database::Memory(MemoryDb::new());
    assert_eq!(db.insert_account(account.clone()), Ok(()));
    assert_eq!(db.find_account_by_email(&"example@validemail.com".to_string()), Some(account));
}
