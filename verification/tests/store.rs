use rauth::database::definition::AbstractDatabase;
use rauth::database::dummy::DummyDb;
use rauth::database::memory::MemoryDb;
use rauth::database::Database;
use rauth::entities::{Account, Projection, Session};
use rauth::util::Error;

fn stored_account(id: &str, email: &str, hash: Option<&str>) -> Account {
    Account {
        id: id.to_string(),
        email: email.to_string(),
        password_hash: hash.map(|h| h.to_string()),
        verified: false,
        sessions: Vec::new(),
    }
}

fn stored_session(user_id: &str, token: &str) -> Session {
    Session {
        id: format!("id-{}", token),
        user_id: user_id.to_string(),
        token: token.to_string(),
        name: "name".to_string(),
        created_at: 3,
    }
}

#[test]
fn default_database_is_the_offline_store() {
    let db = Database::default();
    assert!(matches!(db, Database::Dummy(_)));
    assert_eq!(db.len(), 0);
}

#[test]
fn offline_store_finds_nothing() {
    let db = DummyDb;
    assert_eq!(db.find_account_by_email(&"a@validemail.com".to_string()), None);
    assert_eq!(
        db.find_account_by_id_and_session_token(
            &"a".to_string(),
            &"t".to_string(),
            &Projection::all()
        ),
        None
    );
}

#[test]
fn offline_store_refuses_every_write() {
    let mut db = Database::default();

    let inserted = db.insert_account(stored_account("a", "a@validemail.com", None));
    let appended = db.append_session(&"a".to_string(), stored_session("a", "t"));
    let removed = db.remove_session(&"a".to_string(), &"t".to_string());

    assert_eq!(removed, Err(Error::DatabaseError { operation: "update_one", with: "account" }));
    assert_eq!(inserted, Err(Error::DatabaseError { operation: "insert_one", with: "account" }));
    assert_eq!(appended, Err(Error::DatabaseError { operation: "update_one", with: "account" }));
    assert_eq!(db.find_account_by_email(&"a@validemail.com".to_string()), None);
    assert_eq!(db.len(), 0);
}

#[test]
fn memory_store_finds_what_was_inserted() {
    let mut db = MemoryDb::new();
    let a = stored_account("a", "a@validemail.com", Some("hash-a"));
    let b = stored_account("b", "b@validemail.com", None);

    assert_eq!(db.insert_account(a.clone()), Ok(()));
    assert_eq!(db.insert_account(b.clone()), Ok(()));

    assert_eq!(db.len(), 2);
    assert_eq!(db.find_account_by_email(&"a@validemail.com".to_string()), Some(a));
    assert_eq!(db.find_account_by_email(&"b@validemail.com".to_string()), Some(b));
    assert_eq!(db.find_account_by_email(&"c@validemail.com".to_string()), None);
}

#[test]
fn memory_store_refuses_a_taken_id_or_address() {
    let mut db = MemoryDb::new();
    db.insert_account(stored_account("a", "a@validemail.com", None)).unwrap();

    let same_id = db.insert_account(stored_account("a", "other@validemail.com", None));
    let same_email = db.insert_account(stored_account("other", "a@validemail.com", None));

    let expected = Err(Error::DatabaseError { operation: "insert_one", with: "account" });
    assert_eq!(same_id, expected);
    assert_eq!(same_email, expected);
    assert_eq!(db.len(), 1);
}

#[test]
fn memory_store_refuses_an_account_that_brings_sessions() {
    let mut db = MemoryDb::new();
    let mut a = stored_account("a", "a@validemail.com", None);
    a.sessions.push(stored_session("a", "t"));

    let res = db.insert_account(a);

    assert_eq!(res, Err(Error::DatabaseError { operation: "insert_one", with: "account" }));
    assert_eq!(db.len(), 0);
}

#[test]
fn append_puts_the_session_last() {
    let mut db = MemoryDb::new();
    db.insert_account(stored_account("a", "a@validemail.com", None)).unwrap();
    db.insert_account(stored_account("b", "b@validemail.com", None)).unwrap();

    db.append_session(&"a".to_string(), stored_session("a", "t1")).unwrap();
    db.append_session(&"b".to_string(), stored_session("b", "t2")).unwrap();
    db.append_session(&"a".to_string(), stored_session("a", "t3")).unwrap();

    let a = db.find_account_by_email(&"a@validemail.com".to_string()).unwrap();
    let b = db.find_account_by_email(&"b@validemail.com".to_string()).unwrap();
    assert_eq!(a.sessions, vec![stored_session("a", "t1"), stored_session("a", "t3")]);
    assert_eq!(b.sessions, vec![stored_session("b", "t2")]);
    assert!(db.token_in_use(&"t1".to_string()));
    assert!(db.token_in_use(&"t2".to_string()));
    assert!(!db.token_in_use(&"t4".to_string()));
}

#[test]
fn lookup_needs_both_the_id_and_the_token() {
    let mut db = MemoryDb::new();
    db.insert_account(stored_account("a", "a@validemail.com", Some("hash-a"))).unwrap();
    db.insert_account(stored_account("b", "b@validemail.com", Some("hash-b"))).unwrap();
    db.append_session(&"a".to_string(), stored_session("a", "ta")).unwrap();
    db.append_session(&"b".to_string(), stored_session("b", "tb")).unwrap();
    let all = Projection::all();

    let right = db.find_account_by_id_and_session_token(&"a".to_string(), &"ta".to_string(), &all);
    let crossed =
        db.find_account_by_id_and_session_token(&"b".to_string(), &"ta".to_string(), &all);
    let no_token =
        db.find_account_by_id_and_session_token(&"a".to_string(), &"tx".to_string(), &all);
    let no_account =
        db.find_account_by_id_and_session_token(&"x".to_string(), &"ta".to_string(), &all);

    assert_eq!(right.unwrap().id, "a");
    assert_eq!(crossed, None);
    assert_eq!(no_token, None);
    assert_eq!(no_account, None);
}

#[test]
fn projection_on_sessions_hides_the_hash() {
    let mut db = MemoryDb::new();
    db.insert_account(stored_account("a", "a@validemail.com", Some("hash-a"))).unwrap();
    db.append_session(&"a".to_string(), stored_session("a", "ta")).unwrap();

    let partial = db
        .find_account_by_id_and_session_token(
            &"a".to_string(),
            &"ta".to_string(),
            &Projection::sessions_only(),
        )
        .unwrap();

    assert_eq!(partial.id, "a");
    assert_eq!(partial.email, None);
    assert_eq!(partial.password_hash, None);
    assert_eq!(partial.verified, None);
    assert_eq!(partial.sessions, Some(vec![stored_session("a", "ta")]));
}

#[test]
fn projection_on_everything_hands_out_every_field() {
    let mut db = MemoryDb::new();
    db.insert_account(stored_account("a", "a@validemail.com", Some("hash-a"))).unwrap();
    db.append_session(&"a".to_string(), stored_session("a", "ta")).unwrap();

    let partial = db
        .find_account_by_id_and_session_token(
            &"a".to_string(),
            &"ta".to_string(),
            &Projection::all(),
        )
        .unwrap();

    assert_eq!(partial.email, Some("a@validemail.com".to_string()));
    assert_eq!(partial.password_hash, Some("hash-a".to_string()));
    assert_eq!(partial.verified, Some(false));
    assert_eq!(partial.sessions, Some(vec![stored_session("a", "ta")]));
}

#[test]
fn account_projects_its_fields() {
    let mut a = stored_account("a", "a@validemail.com", Some("hash-a"));
    a.sessions.push(stored_session("a", "ta"));
    let only_email = Projection { email: true, password_hash: false, verified: false, sessions: false };

    let partial = a.project(&only_email);

    assert_eq!(partial.id, "a");
    assert_eq!(partial.email, Some("a@validemail.com".to_string()));
    assert_eq!(partial.password_hash, None);
    assert_eq!(partial.sessions, None);
    assert!(a.holds_token(&"ta".to_string()));
    assert!(!a.holds_token(&"tb".to_string()));
}
