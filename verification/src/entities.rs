//! Accounts, sessions and tickets: plain data, each with its mathematical view.
use vstd::prelude::*;

verus! {

/// A bearer credential granted by a successful login.
#[derive(Debug, PartialEq, Eq)]
pub struct Session {
    pub id: String,
    /// The account that the session belongs to.
    pub user_id: String,
    /// The secret that the client presents, together with `user_id`.
    pub token: String,
    /// A name that the account's owner recognises the session by.
    pub name: String,
    /// When the session was created, in seconds since the epoch.
    pub created_at: u64,
}

/// What a `Session` holds, as mathematical values.
pub struct SessionView {
    pub id: Seq<char>,
    pub user_id: Seq<char>,
    pub token: Seq<char>,
    pub name: Seq<char>,
    pub created_at: u64,
}

impl View for Session {
    type V = SessionView;

    open spec fn view(&self) -> SessionView {
        SessionView {
            id: self.id@,
            user_id: self.user_id@,
            token: self.token@,
            name: self.name@,
            created_at: self.created_at,
        }
    }
}

impl Clone for Session {
    fn clone(&self) -> (r: Self)
        ensures
            r@ == self@,
    {
        Session {
            id: self.id.clone(),
            user_id: self.user_id.clone(),
            token: self.token.clone(),
            name: self.name.clone(),
            created_at: self.created_at,
        }
    }
}

/// The views of a sequence of sessions, in the same order.
pub open spec fn session_views(sessions: Seq<Session>) -> Seq<SessionView> {
    sessions.map_values(|s: Session| s@)
}

/// Copies a list of sessions.
pub fn clone_sessions(sessions: &Vec<Session>) -> (r: Vec<Session>)
    ensures
        session_views(r@) == session_views(sessions@),
{
    let mut out: Vec<Session> = Vec::new();
    let mut i: usize = 0;
    while i < sessions.len()
        invariant
            i <= sessions.len(),
            out.len() == i,
            forall|k: int| 0 <= k < i ==> out@[k]@ == sessions@[k]@,
        decreases sessions.len() - i,
    {
        out.push(sessions[i].clone());
        i += 1;
    }
    assert(session_views(out@) =~= session_views(sessions@));
    out
}

/// What a listing shows of a session: which one it is, never its token.
#[derive(Debug, PartialEq, Eq)]
pub struct SessionInfo {
    pub id: String,
    pub name: String,
    pub created_at: u64,
}

/// What a `SessionInfo` holds, as mathematical values.
pub struct SessionInfoView {
    pub id: Seq<char>,
    pub name: Seq<char>,
    pub created_at: u64,
}

impl View for SessionInfo {
    type V = SessionInfoView;

    open spec fn view(&self) -> SessionInfoView {
        SessionInfoView { id: self.id@, name: self.name@, created_at: self.created_at }
    }
}

/// A session without its token and its owner.
pub open spec fn redacted(s: SessionView) -> SessionInfoView {
    SessionInfoView { id: s.id, name: s.name, created_at: s.created_at }
}

impl Session {
    /// The session as a listing shows it.
    pub fn info(&self) -> (r: SessionInfo)
        ensures
            r@ == redacted(self@),
    {
        SessionInfo { id: self.id.clone(), name: self.name.clone(), created_at: self.created_at }
    }
}

/// A list of sessions as a listing shows it: one entry for each session, in
/// the same order, none with a token.
pub fn redact_sessions(sessions: &Vec<Session>) -> (r: Vec<SessionInfo>)
    ensures
        r@.len() == sessions@.len(),
        forall|k: int| 0 <= k < r@.len() ==> (#[trigger] r@[k])@ == redacted(sessions@[k]@),
{
    let mut out: Vec<SessionInfo> = Vec::new();
    let mut i: usize = 0;
    while i < sessions.len()
        invariant
            i <= sessions.len(),
            out.len() == i,
            forall|k: int| 0 <= k < i ==> (#[trigger] out@[k])@ == redacted(sessions@[k]@),
        decreases sessions.len() - i,
    {
        out.push(sessions[i].info());
        i += 1;
    }
    out
}

/// A persisted identity: an email address, a password hash and the sessions
/// that logins have opened, oldest first.
#[derive(Debug, PartialEq, Eq)]
pub struct Account {
    pub id: String,
    pub email: String,
    /// The Argon2 hash of the password; absent while the account is pending.
    pub password_hash: Option<String>,
    pub verified: bool,
    pub sessions: Vec<Session>,
}

/// What an `Account` holds, as mathematical values.
pub struct AccountView {
    pub id: Seq<char>,
    pub email: Seq<char>,
    pub password_hash: Option<Seq<char>>,
    pub verified: bool,
    pub sessions: Seq<SessionView>,
}

/// The view of an optional string.
pub open spec fn option_view(s: Option<String>) -> Option<Seq<char>> {
    match s {
        Some(x) => Some(x@),
        None => None,
    }
}

/// Copies an optional string.
pub fn clone_option(s: &Option<String>) -> (r: Option<String>)
    ensures
        r == *s,
{
    match s {
        Some(x) => Some(x.clone()),
        None => None,
    }
}

impl View for Account {
    type V = AccountView;

    open spec fn view(&self) -> AccountView {
        AccountView {
            id: self.id@,
            email: self.email@,
            password_hash: option_view(self.password_hash),
            verified: self.verified,
            sessions: session_views(self.sessions@),
        }
    }
}

impl Clone for Account {
    fn clone(&self) -> (r: Self)
        ensures
            r@ == self@,
    {
        Account {
            id: self.id.clone(),
            email: self.email.clone(),
            password_hash: clone_option(&self.password_hash),
            verified: self.verified,
            sessions: clone_sessions(&self.sessions),
        }
    }
}

/// Which fields of an account a lookup hands out. The id always is.
#[derive(Debug, Clone, Copy, PartialEq, Eq)]
pub struct Projection {
    pub email: bool,
    pub password_hash: bool,
    pub verified: bool,
    pub sessions: bool,
}

impl Projection {
    /// Only the session list: what a session-scoped read asks for.
    pub fn sessions_only() -> (r: Projection)
        ensures
            r == (Projection { email: false, password_hash: false, verified: false, sessions: true }),
    {
        Projection { email: false, password_hash: false, verified: false, sessions: true }
    }

    /// Every field.
    pub fn all() -> (r: Projection)
        ensures
            r == (Projection { email: true, password_hash: true, verified: true, sessions: true }),
    {
        Projection { email: true, password_hash: true, verified: true, sessions: true }
    }
}

/// The part of an account that a projection lets through.
#[derive(Debug, PartialEq, Eq)]
pub struct PartialAccount {
    pub id: String,
    pub email: Option<String>,
    pub password_hash: Option<String>,
    pub verified: Option<bool>,
    pub sessions: Option<Vec<Session>>,
}

/// What a `PartialAccount` holds, as mathematical values.
pub struct PartialAccountView {
    pub id: Seq<char>,
    pub email: Option<Seq<char>>,
    pub password_hash: Option<Seq<char>>,
    pub verified: Option<bool>,
    pub sessions: Option<Seq<SessionView>>,
}

impl View for PartialAccount {
    type V = PartialAccountView;

    open spec fn view(&self) -> PartialAccountView {
        PartialAccountView {
            id: self.id@,
            email: option_view(self.email),
            password_hash: option_view(self.password_hash),
            verified: self.verified,
            sessions: match self.sessions {
                Some(s) => Some(session_views(s@)),
                None => None,
            },
        }
    }
}

/// An account seen through a projection: a field that was not asked for is
/// absent, and so is the hash of an account that has none.
pub open spec fn project(account: AccountView, projection: Projection) -> PartialAccountView {
    PartialAccountView {
        id: account.id,
        email: if projection.email { Some(account.email) } else { None },
        password_hash: if projection.password_hash { account.password_hash } else { None },
        verified: if projection.verified { Some(account.verified) } else { None },
        sessions: if projection.sessions { Some(account.sessions) } else { None },
    }
}

impl Account {
    /// The fields of the account that the projection asks for.
    pub fn project(&self, projection: &Projection) -> (r: PartialAccount)
        ensures
            r@ == project(self@, *projection),
    {
        PartialAccount {
            id: self.id.clone(),
            email: if projection.email { Some(self.email.clone()) } else { None },
            password_hash: if projection.password_hash {
                clone_option(&self.password_hash)
            } else {
                None
            },
            verified: if projection.verified { Some(self.verified) } else { None },
            sessions: if projection.sessions { Some(clone_sessions(&self.sessions)) } else { None },
        }
    }

    /// The place of the session that carries the token in the account's list.
    pub fn position_of_token(&self, token: &String) -> (r: Option<usize>)
        ensures
            match r {
                Some(k) => k < self@.sessions.len() && self@.sessions[k as int].token == token@,
                None => !holds_token(self@, token@),
            },
    {
        let mut k: usize = 0;
        while k < self.sessions.len()
            invariant
                k <= self.sessions.len(),
                forall|j: int| 0 <= j < k ==> self.sessions@[j].token@ != token@,
            decreases self.sessions.len() - k,
        {
            if self.sessions[k].token == *token {
                assert(self@.sessions[k as int].token == token@);
                return Some(k);
            }
            k += 1;
        }
        assert forall|j: int| 0 <= j < self@.sessions.len() implies #[trigger] self@.sessions[j].token
            != token@ by {
            assert(self.sessions@[j].token@ != token@);
        }
        None
    }

    /// Whether one of the account's sessions carries the token.
    pub fn holds_token(&self, token: &String) -> (r: bool)
        ensures
            r == holds_token(self@, token@),
    {
        self.position_of_token(token).is_some()
    }
}

/// Whether one of the account's sessions carries the token.
pub open spec fn holds_token(account: AccountView, token: Seq<char>) -> bool {
    exists|k: int| 0 <= k < account.sessions.len() && #[trigger] account.sessions[k].token == token
}

/// A short-lived ticket that binds a login whose password was accepted to the
/// second factor that is still owed. It completes a login and grants nothing
/// else.
#[derive(Debug, PartialEq, Eq)]
pub struct MfaTicket {
    pub ticket: String,
    pub account_id: String,
    /// The names of the second-factor methods that may redeem the ticket.
    pub allowed_methods: Vec<String>,
    /// The first second at which the ticket is no longer accepted.
    pub expires_at: u64,
}

impl MfaTicket {
    /// Whether the ticket's window has passed at time `now`.
    pub fn is_expired(&self, now: u64) -> (r: bool)
        ensures
            r == (now >= self.expires_at),
    {
        now >= self.expires_at
    }
}

} // verus!
