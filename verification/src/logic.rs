//! The service: one store, one configuration, and every operation on
//! credentials and sessions.
use vstd::prelude::*;
use vstd::utf8::encode_utf8;
use crate::config::{Captcha, Config};
use crate::database::definition::{
    can_append, has_email, has_id, lookup_session, store_wf, token_in_use, with_session,
    without_session, AbstractDatabase, OP_APPEND, OP_INSERT, OP_REMOVE, RES_ACCOUNT,
};
use crate::database::Database;
use crate::email::{email_is_valid, is_valid_email, lowercase, normalise_email};
use crate::entities::{
    session_views, Account, AccountView, PartialAccount, Projection, Session,
};
use crate::hashing::{hash_password, hashable, password_matches};
use crate::ids::{
    generate_id, generate_salt, generate_token, is_id, is_token, lemma_id_is_ascii, ID_LENGTH,
    SALT_LENGTH,
};
use crate::util::Error;

verus! {

/// The name under which a session list that a lookup left out is reported.
pub const OP_GET_SESSIONS: &'static str = "get_array(sessions)";

/// What has to be put to the captcha provider before a login can go on.
#[derive(Debug, PartialEq, Eq)]
pub struct CaptchaRequest {
    pub secret: String,
    /// The token that the client sent.
    pub response: String,
}

/// Whether a login passes the captcha check: always where no captcha is asked
/// for, and else only with a token that the provider has accepted.
pub open spec fn captcha_passes(captcha: Captcha, token: Option<String>, verified: bool) -> bool {
    match captcha {
        Captcha::Disabled => true,
        Captcha::HCaptcha { .. } => token is Some && verified,
    }
}

/// Whether some account of the store has an id in the format of the ids that
/// are drawn at random.
pub open spec fn holds_random_id(s: Seq<AccountView>) -> bool {
    exists|i: int| 0 <= i < s.len() && is_id((#[trigger] s[i]).id, ID_LENGTH as nat)
}

/// Whether some session of the store has a token in the format of the tokens
/// that are drawn at random.
pub open spec fn holds_random_token(s: Seq<AccountView>) -> bool {
    exists|t: Seq<char>| is_token(t) && #[trigger] token_in_use(s, t)
}

/// Whether `e` is the failure with which an account of this email address and
/// password is refused by a store in state `s`. The checks come in this order:
/// the address, whether it is taken, the hashing, the insert. The insert can
/// fail only in a store that keeps nothing or that already holds a random
/// id, which the new one may have met.
pub open spec fn is_creation_failure(
    s: Seq<AccountView>,
    persistent: bool,
    email: Seq<char>,
    password: Seq<char>,
    e: Error,
) -> bool {
    if !is_valid_email(email) {
        e == Error::InvalidEmail
    } else if has_email(s, lowercase(email)) {
        e == Error::AccountAlreadyExists
    } else if !hashable(encode_utf8(password).len(), SALT_LENGTH as nat) {
        e == Error::InternalError
    } else {
        &&& e.is_database_error(OP_INSERT@, RES_ACCOUNT@)
        &&& !persistent || holds_random_id(s)
    }
}

/// What a session-scoped read returns for what the store found: the session
/// list of the account that matched, `InvalidSession` where none did, and a
/// store failure where the account came back without its list.
pub open spec fn sessions_of(found: Option<PartialAccount>, r: Result<Vec<Session>, Error>) -> bool {
    match found {
        None => r matches Err(e) && e == Error::InvalidSession,
        Some(partial) => match partial.sessions {
            Some(list) => r matches Ok(v) && v == list,
            None => r matches Err(e) && e.is_database_error(OP_GET_SESSIONS@, RES_ACCOUNT@),
        },
    }
}

/// Decides a session-scoped read on what the store found.
pub fn sessions_from_lookup(found: Option<PartialAccount>) -> (r: Result<Vec<Session>, Error>)
    ensures
        sessions_of(found, r),
{
    match found {
        None => Err(Error::InvalidSession),
        Some(partial) => match partial.sessions {
            Some(list) => Ok(list),
            None => Err(Error::DatabaseError { operation: OP_GET_SESSIONS, with: RES_ACCOUNT }),
        },
    }
}

/// A new session for an account, with a fresh token and a fresh id.
pub fn new_session(account_id: &String, name: String, now: u64) -> (r: Session)
    ensures
        r@.user_id == account_id@,
        r@.name == name@,
        r@.created_at == now,
        is_token(r@.token),
        is_id(r@.id, ID_LENGTH as nat),
{
    Session {
        id: generate_id(),
        user_id: account_id.clone(),
        token: generate_token(),
        name,
        created_at: now,
    }
}

/// A new account for an address, with the Argon2 hash of the password under a
/// fresh salt, a fresh id and no sessions. Fails with `InternalError` exactly
/// when the password is too long to be hashed.
pub fn new_account(address: String, password: &String, verified: bool) -> (r: Result<
    Account,
    Error,
>)
    ensures
        r is Ok <==> hashable(encode_utf8(password@).len(), SALT_LENGTH as nat),
        match r {
            Ok(a) => {
                &&& a@.email == address@
                &&& a@.password_hash matches Some(h) && password_matches(h, password@)
                &&& a@.verified == verified
                &&& a@.sessions.len() == 0
                &&& is_id(a@.id, ID_LENGTH as nat)
            },
            Err(e) => e == Error::InternalError,
        },
{
    let salt = generate_salt();
    proof {
        lemma_id_is_ascii(salt@, SALT_LENGTH as nat);
    }
    match hash_password(password.as_str(), salt.as_str()) {
        Ok(hash) => {
            let account = Account {
                id: generate_id(),
                email: address,
                password_hash: Some(hash),
                verified,
                sessions: Vec::new(),
            };
            assert(account@.sessions =~= Seq::empty());
            Ok(account)
        },
        Err(e) => Err(e),
    }
}

/// The question to put to the captcha provider about a request: none where no
/// captcha is asked for or the client sent no token.
pub fn captcha_request(config: &Config, token: &Option<String>) -> (r: Option<CaptchaRequest>)
    ensures
        match r {
            Some(q) => {
                &&& config.captcha matches Captcha::HCaptcha { secret }
                &&& token matches Some(t)
                &&& q.secret == secret
                &&& q.response == t
            },
            None => config.captcha is Disabled || token is None,
        },
{
    match &config.captcha {
        Captcha::Disabled => None,
        Captcha::HCaptcha { secret } => match token {
            Some(t) => Some(CaptchaRequest { secret: secret.clone(), response: t.clone() }),
            None => None,
        },
    }
}

/// Checks the captcha of a request. `verified` says whether the provider
/// accepted the token; it is not looked at where no captcha is asked for or no
/// token was sent.
pub fn check_captcha(config: &Config, token: &Option<String>, verified: bool) -> (r: Result<
    (),
    Error,
>)
    ensures
        r is Ok <==> captcha_passes(config.captcha, *token, verified),
        r matches Err(e) ==> e == Error::CaptchaFailed,
{
    match &config.captcha {
        Captcha::Disabled => Ok(()),
        Captcha::HCaptcha { .. } => match token {
            Some(_) => if verified {
                Ok(())
            } else {
                Err(Error::CaptchaFailed)
            },
            None => Err(Error::CaptchaFailed),
        },
    }
}

/// Checks that an email address is well formed. Whether an account exists for
/// it plays no part.
pub fn validate_email(email: &String) -> (r: Result<(), Error>)
    ensures
        r is Ok <==> is_valid_email(email@),
        r matches Err(e) ==> e == Error::InvalidEmail,
{
    if email_is_valid(email.as_str()) {
        Ok(())
    } else {
        Err(Error::InvalidEmail)
    }
}

/// The service.
pub struct Auth {
    pub db: Database,
    pub config: Config,
}

impl Auth {
    /// A service over the given store, with the given configuration.
    pub fn new(db: Database, config: Config) -> (r: Auth)
        ensures
            r.db == db,
            r.config == config,
    {
        Auth { db, config }
    }

    /// The question to put to the captcha provider before `check_captcha` is
    /// called: none where no captcha is asked for or the client sent no token.
    pub fn captcha_request(&self, token: &Option<String>) -> (r: Option<CaptchaRequest>)
        ensures
            match r {
                Some(q) => {
                    &&& self.config.captcha matches Captcha::HCaptcha { secret }
                    &&& token matches Some(t)
                    &&& q.secret == secret
                    &&& q.response == t
                },
                None => self.config.captcha is Disabled || token is None,
            },
    {
        captcha_request(&self.config, token)
    }

    /// Checks the captcha of a request. `verified` says whether the provider
    /// accepted the token; it is not looked at where no captcha is asked for
    /// or no token was sent.
    pub fn check_captcha(&self, token: &Option<String>, verified: bool) -> (r: Result<(), Error>)
        ensures
            r is Ok <==> captcha_passes(self.config.captcha, *token, verified),
            r matches Err(e) ==> e == Error::CaptchaFailed,
    {
        check_captcha(&self.config, token, verified)
    }

    /// Checks that an email address is well formed. Whether an account exists
    /// for it plays no part.
    pub fn validate_email(&self, email: &String) -> (r: Result<(), Error>)
        ensures
            r is Ok <==> is_valid_email(email@),
            r matches Err(e) ==> e == Error::InvalidEmail,
    {
        validate_email(email)
    }

    /// Registers an account under the lower-case form of an email address,
    /// with the Argon2 hash of the password. On failure the store is
    /// unchanged.
    pub fn create_account(&mut self, email: String, password: String, verified: bool) -> (r: Result<
        Account,
        Error,
    >)
        ensures
            final(self).config == old(self).config,
            final(self).db.persistent() == old(self).db.persistent(),
            store_wf(old(self).db.state()) ==> store_wf(final(self).db.state()),
            match r {
                Ok(a) => {
                    &&& is_valid_email(email@)
                    &&& !has_email(old(self).db.state(), lowercase(email@))
                    &&& old(self).db.persistent()
                    &&& a@.email == lowercase(email@)
                    &&& a@.password_hash matches Some(h) && password_matches(h, password@)
                    &&& a@.verified == verified
                    &&& a@.sessions.len() == 0
                    &&& is_id(a@.id, ID_LENGTH as nat)
                    &&& !has_id(old(self).db.state(), a@.id)
                    &&& final(self).db.state() == old(self).db.state().push(a@)
                },
                Err(e) => {
                    &&& final(self).db.state() == old(self).db.state()
                    &&& is_creation_failure(
                        old(self).db.state(),
                        old(self).db.persistent(),
                        email@,
                        password@,
                        e,
                    )
                },
            },
    {
        if !email_is_valid(email.as_str()) {
            return Err(Error::InvalidEmail);
        }
        let address = normalise_email(email.as_str());
        if self.db.find_account_by_email(&address).is_some() {
            return Err(Error::AccountAlreadyExists);
        }
        let account = match new_account(address, &password, verified) {
            Ok(account) => account,
            Err(e) => {
                return Err(e);
            },
        };
        match self.db.insert_account(account.clone()) {
            Ok(()) => Ok(account),
            Err(e) => {
                proof {
                    if old(self).db.persistent() {
                        let s = old(self).db.state();
                        let i = choose|i: int| 0 <= i < s.len() && (#[trigger] s[i]).id == account@.id;
                        assert(is_id(s[i].id, ID_LENGTH as nat));
                    }
                }
                Err(e)
            },
        }
    }

    /// Opens a session for an account: draws a fresh token and appends the
    /// session to the account's list in one step of the store. A token that is
    /// already in use is a failure; no second token is tried.
    pub fn create_session(&mut self, account: &Account, name: String, now: u64) -> (r: Result<
        Session,
        Error,
    >)
        ensures
            final(self).config == old(self).config,
            final(self).db.persistent() == old(self).db.persistent(),
            store_wf(old(self).db.state()),
            store_wf(final(self).db.state()),
            match r {
                Ok(s) => {
                    &&& s@.user_id == account.id@
                    &&& s@.name == name@
                    &&& s@.created_at == now
                    &&& is_token(s@.token)
                    &&& is_id(s@.id, ID_LENGTH as nat)
                    &&& old(self).db.persistent()
                    &&& can_append(old(self).db.state(), account.id@, s@)
                    &&& final(self).db.state() == with_session(
                        old(self).db.state(),
                        account.id@,
                        s@,
                    )
                },
                Err(e) => {
                    &&& e.is_database_error(OP_APPEND@, RES_ACCOUNT@)
                    &&& final(self).db.state() == old(self).db.state()
                    &&& {
                        ||| !old(self).db.persistent()
                        ||| !has_id(old(self).db.state(), account.id@)
                        ||| holds_random_token(old(self).db.state())
                    }
                },
            },
    {
        let session = new_session(&account.id, name, now);
        match self.db.append_session(&account.id, session.clone()) {
            Ok(()) => Ok(session),
            Err(e) => {
                assert(is_token(session@.token));
                assert(!can_append(old(self).db.state(), account.id@, session@)
                    ==> !has_id(old(self).db.state(), account.id@) || token_in_use(
                    old(self).db.state(),
                    session@.token,
                ));
                Err(e)
            },
        }
    }

    /// The sessions of the account that `session` belongs to. The account is
    /// looked up by its id and the token together; where no account matches
    /// both, the answer is `InvalidSession`, whichever of the two was wrong.
    pub fn fetch_all_sessions(&self, session: Session) -> (r: Result<Vec<Session>, Error>)
        ensures
            store_wf(self.db.state()),
            match lookup_session(self.db.state(), session@.user_id, session@.token) {
                Some(account) => r matches Ok(list) && session_views(list@) == account.sessions,
                None => r matches Err(e) && e == Error::InvalidSession,
            },
    {
        let projection = Projection::sessions_only();
        let found = self.db.find_account_by_id_and_session_token(
            &session.user_id,
            &session.token,
            &projection,
        );
        sessions_from_lookup(found)
    }

    /// Ends a session. The account is looked up by the session's account id
    /// and token together, as for every session-scoped operation; where no
    /// account matches both, the answer is `InvalidSession` and nothing
    /// changes. Otherwise the session leaves the account's list and its token
    /// opens nothing any more.
    pub fn revoke_session(&mut self, session: Session) -> (r: Result<(), Error>)
        ensures
            final(self).config == old(self).config,
            final(self).db.persistent() == old(self).db.persistent(),
            store_wf(old(self).db.state()),
            store_wf(final(self).db.state()),
            match lookup_session(old(self).db.state(), session@.user_id, session@.token) {
                Some(_) => if old(self).db.persistent() {
                    &&& r is Ok
                    &&& final(self).db.state() == without_session(
                        old(self).db.state(),
                        session@.user_id,
                        session@.token,
                    )
                } else {
                    &&& r matches Err(e) && e.is_database_error(OP_REMOVE@, RES_ACCOUNT@)
                    &&& final(self).db.state() == old(self).db.state()
                },
                None => {
                    &&& r matches Err(e) && e == Error::InvalidSession
                    &&& final(self).db.state() == old(self).db.state()
                },
            },
    {
        let projection = Projection { email: false, password_hash: false, verified: false, sessions: false };
        let found = self.db.find_account_by_id_and_session_token(
            &session.user_id,
            &session.token,
            &projection,
        );
        match found {
            Some(_) => self.db.remove_session(&session.user_id, &session.token),
            None => Err(Error::InvalidSession),
        }
    }
}

} // verus!
