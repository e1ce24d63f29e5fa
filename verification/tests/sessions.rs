use rauth::config::Config;
use rauth::database::definition::AbstractDatabase;
use rauth::database::memory::MemoryDb;
use rauth::database::Database;
use rauth::entities::{redact_sessions, Account, MfaTicket, PartialAccount, Session, SessionInfo};
use rauth::ids::{generate_id, generate_salt, generate_token};
use rauth::logic::{new_session, sessions_from_lookup, Auth};
use rauth::util::Error;

fn plain_account(id: &str, email: &str) -> Account {
    Account {
        id: id.to_string(),
        email: email.to_string(),
        password_hash: None,
        verified: true,
        sessions: Vec::new(),
    }
}

fn auth_with(accounts: Vec<Account>) -> Auth {
    let mut db = Database::Memory(MemoryDb::new());
    for account in accounts {
        db.insert_account(account).unwrap();
    }
    Auth::new(db, Config::default())
}

fn session_with_token(user_id: &str, token: &str) -> Session {
    Session {
        id: "session".to_string(),
        user_id: user_id.to_string(),
        token: token.to_string(),
        name: "name".to_string(),
        created_at: 0,
    }
}

fn is_id_alphabet(s: &str) -> bool {
    s.chars().all(|c| c.is_ascii_alphanumeric() || c == '_' || c == '-')
}

#[test]
fn created_session_is_listed() {
    let a = plain_account("a", "a@validemail.com");
    let mut auth = auth_with(vec![a.clone()]);

    let session = auth.create_session(&a, "Phone".to_string(), 12).unwrap();

    assert_eq!(session.user_id, "a");
    assert_eq!(session.name, "Phone");
    assert_eq!(session.created_at, 12);
    assert_eq!(auth.fetch_all_sessions(session.clone()), Ok(vec![session.clone()]));
}

#[test]
fn sessions_are_listed_in_creation_order() {
    let a = plain_account("a", "a@validemail.com");
    let mut auth = auth_with(vec![a.clone()]);

    let first = auth.create_session(&a, "first".to_string(), 1).unwrap();
    let second = auth.create_session(&a, "second".to_string(), 2).unwrap();
    let third = auth.create_session(&a, "third".to_string(), 3).unwrap();

    let listed = auth.fetch_all_sessions(second.clone()).unwrap();
    assert_eq!(listed, vec![first, second, third]);
}

#[test]
fn both_of_two_sessions_land() {
    let a = plain_account("a", "a@validemail.com");
    let mut auth = auth_with(vec![a.clone()]);

    let one = auth.create_session(&a, "one".to_string(), 1).unwrap();
    let two = auth.create_session(&a, "two".to_string(), 1).unwrap();

    let by_one = auth.fetch_all_sessions(one.clone()).unwrap();
    let by_two = auth.fetch_all_sessions(two.clone()).unwrap();
    assert_eq!(by_one, by_two);
    assert!(by_one.iter().any(|s| s.token == one.token));
    assert!(by_one.iter().any(|s| s.token == two.token));
    assert_eq!(by_one.len(), 2);
}

#[test]
fn token_under_another_account_id_is_an_invalid_session() {
    let a = plain_account("a", "a@validemail.com");
    let b = plain_account("b", "b@validemail.com");
    let mut auth = auth_with(vec![a.clone(), b.clone()]);
    let of_a = auth.create_session(&a, "a".to_string(), 1).unwrap();
    auth.create_session(&b, "b".to_string(), 1).unwrap();

    let forged = session_with_token("b", &of_a.token);

    assert_eq!(auth.fetch_all_sessions(forged), Err(Error::InvalidSession));
}

#[test]
fn unknown_token_is_an_invalid_session() {
    let a = plain_account("a", "a@validemail.com");
    let mut auth = auth_with(vec![a.clone()]);
    auth.create_session(&a, "a".to_string(), 1).unwrap();

    let unknown = session_with_token("a", "no-such-token");
    let nobody = session_with_token("nobody", "no-such-token");

    let first = auth.fetch_all_sessions(unknown).unwrap_err();
    let second = auth.fetch_all_sessions(nobody).unwrap_err();
    assert_eq!(first, Error::InvalidSession);
    assert_eq!(first, second);
    assert_eq!(first.status(), 401);
    assert_eq!(first.body(), "{\"type\":\"InvalidSession\"}");
}

#[test]
fn forced_token_collision_is_refused() {
    let a = plain_account("a", "a@validemail.com");
    let b = plain_account("b", "b@validemail.com");
    let mut auth = auth_with(vec![a, b]);
    auth.db.append_session(&"a".to_string(), session_with_token("a", "same")).unwrap();

    let again = auth.db.append_session(&"b".to_string(), session_with_token("b", "same"));
    let twice = auth.db.append_session(&"a".to_string(), session_with_token("a", "same"));

    let expected = Err(Error::DatabaseError { operation: "update_one", with: "account" });
    assert_eq!(again, expected);
    assert_eq!(twice, expected);
    // The token still opens account a and nothing of account b.
    let listed = auth.fetch_all_sessions(session_with_token("a", "same")).unwrap();
    assert_eq!(listed.len(), 1);
    let forged = auth.fetch_all_sessions(session_with_token("b", "same"));
    assert_eq!(forged, Err(Error::InvalidSession));
}

#[test]
fn many_sessions_have_different_tokens() {
    let a = plain_account("a", "a@validemail.com");
    let b = plain_account("b", "b@validemail.com");
    let mut auth = auth_with(vec![a.clone(), b.clone()]);

    let mut tokens: Vec<String> = Vec::new();
    for i in 0..200u64 {
        let owner = if i % 2 == 0 { &a } else { &b };
        let session = auth.create_session(owner, "s".to_string(), i).unwrap();
        assert_eq!(session.token.chars().count(), 64);
        assert!(is_id_alphabet(&session.token));
        tokens.push(session.token);
    }

    let mut sorted = tokens.clone();
    sorted.sort();
    sorted.dedup();
    assert_eq!(sorted.len(), tokens.len());
}

#[test]
fn session_for_a_missing_account_is_a_store_failure() {
    let mut auth = auth_with(vec![]);
    let ghost = plain_account("ghost", "ghost@validemail.com");

    let res = auth.create_session(&ghost, "s".to_string(), 0);

    assert_eq!(res, Err(Error::DatabaseError { operation: "update_one", with: "account" }));
    assert_eq!(auth.db.len(), 0);
}

#[test]
fn session_in_an_offline_store_is_a_store_failure() {
    let mut auth = Auth::new(Database::default(), Config::default());
    let a = plain_account("a", "a@validemail.com");

    let res = auth.create_session(&a, "s".to_string(), 0);

    let err = res.unwrap_err();
    assert_eq!(err, Error::DatabaseError { operation: "update_one", with: "account" });
    assert_eq!(err.status(), 500);
    assert_eq!(err.body(), "{\"type\":\"DatabaseError\"}");
}

#[test]
fn session_naming_another_account_is_refused() {
    let a = plain_account("a", "a@validemail.com");
    let mut auth = auth_with(vec![a]);

    let res = auth.db.append_session(&"a".to_string(), session_with_token("b", "token"));

    assert_eq!(res, Err(Error::DatabaseError { operation: "update_one", with: "account" }));
}

#[test]
fn lookup_decides_a_session_read() {
    let listed = vec![session_with_token("a", "t")];
    let with_list = PartialAccount {
        id: "a".to_string(),
        email: None,
        password_hash: None,
        verified: None,
        sessions: Some(listed.clone()),
    };
    let without_list = PartialAccount {
        id: "a".to_string(),
        email: None,
        password_hash: None,
        verified: None,
        sessions: None,
    };

    assert_eq!(sessions_from_lookup(Some(with_list)), Ok(listed));
    assert_eq!(sessions_from_lookup(None), Err(Error::InvalidSession));
    assert_eq!(
        sessions_from_lookup(Some(without_list)),
        Err(Error::DatabaseError { operation: "get_array(sessions)", with: "account" })
    );
}

#[test]
fn new_session_has_a_fresh_token_and_id() {
    let one = new_session(&"a".to_string(), "n".to_string(), 5);
    let two = new_session(&"a".to_string(), "n".to_string(), 5);

    assert_eq!(one.user_id, "a");
    assert_eq!(one.name, "n");
    assert_eq!(one.created_at, 5);
    assert_eq!(one.token.chars().count(), 64);
    assert_eq!(one.id.chars().count(), 26);
    assert_ne!(one.token, two.token);
    assert_ne!(one.id, two.id);
}

#[test]
fn random_identifiers_have_their_format() {
    let token = generate_token();
    let id = generate_id();
    let salt = generate_salt();

    assert_eq!(token.len(), 64);
    assert_eq!(id.len(), 26);
    assert_eq!(salt.len(), 24);
    assert!(is_id_alphabet(&token));
    assert!(is_id_alphabet(&id));
    assert!(is_id_alphabet(&salt));
    assert_ne!(generate_token(), token);
}

#[test]
fn ticket_expires_at_its_time() {
    let ticket = MfaTicket {
        ticket: "t".to_string(),
        account_id: "a".to_string(),
        allowed_methods: vec!["totp".to_string()],
        expires_at: 100,
    };

    assert!(!ticket.is_expired(0));
    assert!(!ticket.is_expired(99));
    assert!(ticket.is_expired(100));
    assert!(ticket.is_expired(101));
}

#[test]
fn listing_shows_no_token() {
    let sessions = vec![session_with_token("a", "secret-1"), session_with_token("a", "secret-2")];

    let listed = redact_sessions(&sessions);

    let shown = SessionInfo { id: "session".to_string(), name: "name".to_string(), created_at: 0 };
    assert_eq!(listed.len(), 2);
    assert_eq!(listed[0], shown);
    assert_eq!(listed[1], shown);
    assert_eq!(sessions[0].info(), shown);
    assert!(redact_sessions(&Vec::new()).is_empty());
}

#[test]
fn revoked_session_opens_nothing() {
    let a = plain_account("a", "a@validemail.com");
    let mut auth = auth_with(vec![a.clone()]);
    let first = auth.create_session(&a, "first".to_string(), 1).unwrap();
    let second = auth.create_session(&a, "second".to_string(), 2).unwrap();
    let third = auth.create_session(&a, "third".to_string(), 3).unwrap();

    assert_eq!(auth.revoke_session(second.clone()), Ok(()));

    assert_eq!(auth.fetch_all_sessions(second.clone()), Err(Error::InvalidSession));
    assert_eq!(auth.fetch_all_sessions(first.clone()), Ok(vec![first, third]));
    assert_eq!(auth.revoke_session(second), Err(Error::InvalidSession));
}

#[test]
fn session_is_revoked_only_under_its_own_account() {
    let a = plain_account("a", "a@validemail.com");
    let b = plain_account("b", "b@validemail.com");
    let mut auth = auth_with(vec![a.clone(), b.clone()]);
    let of_a = auth.create_session(&a, "a".to_string(), 1).unwrap();
    let of_b = auth.create_session(&b, "b".to_string(), 1).unwrap();

    let forged = session_with_token("b", &of_a.token);
    let unknown = session_with_token("a", "no-such-token");

    assert_eq!(auth.revoke_session(forged), Err(Error::InvalidSession));
    assert_eq!(auth.revoke_session(unknown), Err(Error::InvalidSession));
    assert_eq!(auth.fetch_all_sessions(of_a.clone()), Ok(vec![of_a]));
    assert_eq!(auth.fetch_all_sessions(of_b.clone()), Ok(vec![of_b]));
}

#[test]
fn offline_store_has_nothing_to_revoke() {
    let mut auth = Auth::new(Database::default(), Config::default());

    let res = auth.revoke_session(session_with_token("a", "t"));

    assert_eq!(res, Err(Error::InvalidSession));
}

#[test]
fn removed_token_is_free_again() {
    let a = plain_account("a", "a@validemail.com");
    let b = plain_account("b", "b@validemail.com");
    let mut auth = auth_with(vec![a, b]);
    auth.db.append_session(&"a".to_string(), session_with_token("a", "t")).unwrap();

    let missing = auth.db.remove_session(&"b".to_string(), &"t".to_string());
    let removed = auth.db.remove_session(&"a".to_string(), &"t".to_string());
    let again = auth.db.remove_session(&"a".to_string(), &"t".to_string());
    let reused = auth.db.append_session(&"b".to_string(), session_with_token("b", "t"));

    let refused = Err(Error::DatabaseError { operation: "update_one", with: "account" });
    assert_eq!(missing, refused);
    assert_eq!(removed, Ok(()));
    assert_eq!(again, refused);
    assert_eq!(reused, Ok(()));
    assert_eq!(auth.fetch_all_sessions(session_with_token("a", "t")), Err(Error::InvalidSession));
    assert_eq!(auth.fetch_all_sessions(session_with_token("b", "t")).unwrap().len(), 1);
}
