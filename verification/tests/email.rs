use rauth::email::{email_is_valid, normalise_email};

#[test]
fn ordinary_addresses_are_valid() {
    assert!(email_is_valid("example@validemail.com"));
    assert!(email_is_valid("nouser@x.com"));
    assert!(email_is_valid("first.last+tag@sub.example-domain.org"));
    assert!(email_is_valid("a@b"));
    assert!(email_is_valid("UPPER@CASE.COM"));
    assert!(email_is_valid("o'neil_{x}|~!#$%&*/=?^`@example.com"));
}

#[test]
fn address_needs_exactly_one_at_sign() {
    assert!(!email_is_valid(""));
    assert!(!email_is_valid("example"));
    assert!(!email_is_valid("example.com"));
    assert!(!email_is_valid("a@b@c.com"));
    assert!(!email_is_valid("@"));
}

#[test]
fn address_needs_both_parts() {
    assert!(!email_is_valid("@example.com"));
    assert!(!email_is_valid("example@"));
}

#[test]
fn local_part_is_limited() {
    let longest = format!("{}@example.com", "a".repeat(64));
    let too_long = format!("{}@example.com", "a".repeat(65));

    assert!(email_is_valid(&longest));
    assert!(!email_is_valid(&too_long));
    assert!(!email_is_valid("two words@example.com"));
    assert!(!email_is_valid("semi;colon@example.com"));
    assert!(!email_is_valid("paren(s)@example.com"));
}

#[test]
fn domain_is_limited() {
    let longest = format!("a@{}", "d".repeat(255));
    let too_long = format!("a@{}", "d".repeat(256));

    assert!(email_is_valid(&longest));
    assert!(!email_is_valid(&too_long));
    assert!(!email_is_valid("a@.example.com"));
    assert!(!email_is_valid("a@example.com."));
    assert!(!email_is_valid("a@-example.com"));
    assert!(!email_is_valid("a@example.com-"));
    assert!(!email_is_valid("a@example..com"));
    assert!(!email_is_valid("a@exa_mple.com"));
    assert!(!email_is_valid("a@exa mple.com"));
    assert!(email_is_valid("a@ex-am.ple.com"));
}

#[test]
fn non_ascii_address_is_refused() {
    assert!(!email_is_valid("ex\u{e4}mple@validemail.com"));
    assert!(!email_is_valid("example@valid\u{e9}mail.com"));
}

#[test]
fn normalising_lowers_ascii_capitals_only() {
    assert_eq!(normalise_email("Example@ValidEmail.COM"), "example@validemail.com");
    assert_eq!(normalise_email("already@lower.case"), "already@lower.case");
    assert_eq!(normalise_email("AZ[`{\u{c4}"), "az[`{\u{c4}");
    assert_eq!(normalise_email(""), "");
}
