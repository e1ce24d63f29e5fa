//! Logging in: what a request holds, what it is answered with, and how the
//! answer is decided.
use vstd::prelude::*;
use vstd::string::StringExecFns;
use crate::config::{Captcha, Config};
use crate::database::definition::{
    account_view, can_append, can_insert, has_email, has_id, index_of_email,
    lemma_index_of_email, lemma_insert_keeps_wf, lookup_email, store_wf, token_in_use,
    with_session, AbstractDatabase, OP_APPEND, RES_ACCOUNT,
};
use crate::email::{is_valid_email, lowercase, normalise_email};
use crate::entities::{option_view, Account, AccountView, Session};
use crate::hashing::{password_matches, verify_password};
use crate::ids::{is_id, is_token, ID_LENGTH};
use crate::logic::{
    captcha_passes, captcha_request, check_captcha, holds_random_token, new_session,
    validate_email, Auth, CaptchaRequest,
};
use crate::util::{lemma_invalid_credentials_body, Error};

verus! {

/// A login request.
#[derive(Debug, PartialEq, Eq)]
pub struct Data {
    pub email: String,
    pub password: Option<String>,
    /// The answer to a second-factor challenge.
    pub challenge: Option<String>,
    /// The name to give the session.
    pub friendly_name: Option<String>,
    /// The captcha token.
    pub captcha: Option<String>,
}

/// The answer to a login that was not refused.
#[derive(Debug, PartialEq, Eq)]
pub enum Response {
    /// The login is complete; the session carries the token.
    Success(Session),
    /// A one-time code was sent by email and is awaited.
    EmailOTP,
    /// A second factor is owed.
    MFA { ticket: String, allowed_methods: Vec<String> },
}

impl Response {
    /// The name of the variant, by which the answer is told apart on the wire.
    pub fn result_tag(&self) -> (r: &'static str)
        ensures
            r@ == match self {
                Response::Success(_) => "Success"@,
                Response::EmailOTP => "EmailOTP"@,
                Response::MFA { .. } => "MFA"@,
            },
    {
        match self {
            Response::Success(_) => "Success",
            Response::EmailOTP => "EmailOTP",
            Response::MFA { .. } => "MFA",
        }
    }
}

/// The name of a session whose request gave none.
pub const DEFAULT_SESSION_NAME: &'static str = "Unknown";

/// An encoded hash that accepts no password anybody knows. A password sent for
/// an unknown address is checked against it, so that the check costs what it
/// costs for a known one.
pub const DUMMY_HASH: &'static str =
    "$argon2id$v=19$m=19456,t=2,p=1$c29tZXNhbHQ$AAAAAAAAAAAAAAAAAAAAAAAAAAAAAAAAAAAAAAAAAAA";

/// The name that the session of a request gets.
pub open spec fn session_name(data: Data) -> Seq<char> {
    match data.friendly_name {
        Some(name) => name@,
        None => DEFAULT_SESSION_NAME@,
    }
}

/// Whether the account that was found, if any, and the password that was
/// sent, if any, grant a login: there is an account, it has a hash, a password
/// was sent, and the hash accepts it.
pub open spec fn grants(found: Option<AccountView>, password: Option<Seq<char>>) -> bool {
    &&& found matches Some(account)
    &&& account.password_hash matches Some(hash)
    &&& password matches Some(p)
    &&& password_matches(hash, p)
}

/// The failure with which a login is refused before any session is made, or
/// `None` where it goes on to open a session. An unknown address, an account
/// without a password, a wrong password, a second-factor answer and a request
/// without any secret are all refused with `InvalidCredentials`.
pub open spec fn login_rejection(
    config: Config,
    s: Seq<AccountView>,
    data: Data,
    captcha_verified: bool,
) -> Option<Error> {
    if !captcha_passes(config.captcha, data.captcha, captcha_verified) {
        Some(Error::CaptchaFailed)
    } else if !is_valid_email(data.email@) {
        Some(Error::InvalidEmail)
    } else if !grants(lookup_email(s, lowercase(data.email@)), option_view(data.password)) {
        Some(Error::InvalidCredentials)
    } else {
        None
    }
}

/// A login with the address of an account, in any case of its letters, and a
/// password that the account's hash accepts is not refused: it goes on to
/// open a session for that account.
pub proof fn lemma_correct_password_is_not_refused(
    config: Config,
    s: Seq<AccountView>,
    i: int,
    data: Data,
    captcha_verified: bool,
)
    requires
        store_wf(s),
        0 <= i < s.len(),
        captcha_passes(config.captcha, data.captcha, captcha_verified),
        is_valid_email(data.email@),
        s[i].email == lowercase(data.email@),
        grants(Some(s[i]), option_view(data.password)),
    ensures
        login_rejection(config, s, data, captcha_verified) is None,
        lookup_email(s, lowercase(data.email@)) == Some(s[i]),
{
    lemma_index_of_email(s, i);
}

/// An account that has just been registered can log in with the address and
/// the password it was registered with.
pub proof fn lemma_new_account_can_log_in(
    config: Config,
    s: Seq<AccountView>,
    account: AccountView,
    data: Data,
    captcha_verified: bool,
)
    requires
        store_wf(s),
        can_insert(s, account),
        captcha_passes(config.captcha, data.captcha, captcha_verified),
        is_valid_email(data.email@),
        account.email == lowercase(data.email@),
        grants(Some(account), option_view(data.password)),
    ensures
        login_rejection(config, s.push(account), data, captcha_verified) is None,
        lookup_email(s.push(account), lowercase(data.email@)) == Some(account),
{
    lemma_insert_keeps_wf(s, account);
    lemma_correct_password_is_not_refused(
        config,
        s.push(account),
        s.len() as int,
        data,
        captcha_verified,
    );
}

/// A wrong password for a registered address and any password for an address
/// that is not registered are refused alike: with the same failure, and so
/// with the same status and the same body. The answer does not tell whether
/// the address is registered.
pub proof fn lemma_refusal_hides_registration(
    config: Config,
    s: Seq<AccountView>,
    registered: Data,
    registered_verified: bool,
    unregistered: Data,
    unregistered_verified: bool,
)
    requires
        captcha_passes(config.captcha, registered.captcha, registered_verified),
        captcha_passes(config.captcha, unregistered.captcha, unregistered_verified),
        is_valid_email(registered.email@),
        is_valid_email(unregistered.email@),
        has_email(s, lowercase(registered.email@)),
        !grants(lookup_email(s, lowercase(registered.email@)), option_view(registered.password)),
        !has_email(s, lowercase(unregistered.email@)),
    ensures
        login_rejection(config, s, registered, registered_verified) == Some(
            Error::InvalidCredentials,
        ),
        login_rejection(config, s, unregistered, unregistered_verified) == login_rejection(
            config,
            s,
            registered,
            registered_verified,
        ),
        Error::InvalidCredentials.spec_status() == 401,
        Error::InvalidCredentials.spec_body() == "{\"type\":\"InvalidCredentials\"}"@,
{
    lemma_invalid_credentials_body();
}

/// Decides on the secret of a request once the hash has spoken. `known` says
/// whether an account with a password was found for the address; `accepted`
/// says what the hash made of the password that was sent, and is `None` where
/// none was sent. A login is granted to a known account whose hash accepted
/// the password, and to nobody else: an answer to a second-factor challenge
/// cannot be checked yet and is refused as a wrong password is.
pub fn decide_credentials(known: bool, accepted: Option<bool>) -> (r: Result<(), Error>)
    ensures
        r is Ok <==> known && accepted == Some(true),
        r matches Err(e) ==> e == Error::InvalidCredentials,
{
    match accepted {
        Some(true) => if known {
            Ok(())
        } else {
            Err(Error::InvalidCredentials)
        },
        Some(false) => Err(Error::InvalidCredentials),
        None => Err(Error::InvalidCredentials),
    }
}

/// Checks the secret of a request against the account that the store found
/// for its address. Where no account was found, or the account has no
/// password, a password is still checked, against a hash that accepts none.
pub fn check_credentials(found: &Option<Account>, data: &Data) -> (r: Result<(), Error>)
    ensures
        r is Ok <==> grants(account_view(*found), option_view(data.password)),
        r matches Err(e) ==> e == Error::InvalidCredentials,
{
    let stored: Option<&String> = match found {
        Some(account) => match &account.password_hash {
            Some(hash) => Some(hash),
            None => None,
        },
        None => None,
    };
    let accepted: Option<bool> = match &data.password {
        Some(password) => match stored {
            Some(hash) => Some(verify_password(hash.as_str(), password.as_str())),
            None => Some(verify_password(DUMMY_HASH, password.as_str())),
        },
        None => None,
    };
    decide_credentials(stored.is_some(), accepted)
}

/// The name that the session of a request gets.
pub fn name_of_session(data: &Data) -> (r: String)
    ensures
        r@ == session_name(*data),
{
    match &data.friendly_name {
        Some(name) => name.clone(),
        None => String::from_str(DEFAULT_SESSION_NAME),
    }
}

/// Where a login stands between two steps.
#[derive(Debug, PartialEq, Eq)]
pub enum LoginState {
    /// The request has arrived and nothing was done yet.
    Start,
    /// The captcha provider is being asked about the token.
    AwaitingCaptcha,
    /// The store is being asked for the account.
    AwaitingAccount,
    /// The store is being asked to append the session.
    AwaitingAppend { session: Session },
    /// The login has been answered.
    Done,
}

/// What came back since the last step.
#[derive(Debug, PartialEq, Eq)]
pub enum LoginEvent {
    /// Nothing yet: the login begins.
    Begin,
    /// Whether the captcha provider accepted the token.
    CaptchaChecked(bool),
    /// What the store found for the address, or how it failed.
    AccountLooked(Result<Option<Account>, Error>),
    /// Whether the store appended the session.
    SessionAppended(Result<(), Error>),
}

/// What is to be done before the next step.
#[derive(Debug, PartialEq, Eq)]
pub enum LoginAction {
    /// Ask the captcha provider.
    VerifyCaptcha(CaptchaRequest),
    /// Ask the store for the account registered under this address.
    FindAccount(String),
    /// Ask the store to append the session to the account's list.
    AppendSession { account_id: String, session: Session },
    /// Answer the request; the login is over.
    Answer(Result<Response, Error>),
}

/// How many steps a login in this state can still take.
pub open spec fn steps_left(state: LoginState) -> nat {
    match state {
        LoginState::Start => 4,
        LoginState::AwaitingCaptcha => 3,
        LoginState::AwaitingAccount => 2,
        LoginState::AwaitingAppend { .. } => 1,
        LoginState::Done => 0,
    }
}

/// Where a login goes once the captcha is settled: refused for the captcha,
/// then for the address, and else on to the store.
pub open spec fn is_screening(
    config: Config,
    data: Data,
    verified: bool,
    next: LoginState,
    action: LoginAction,
) -> bool {
    if !captcha_passes(config.captcha, data.captcha, verified) {
        next is Done && action == LoginAction::Answer(Err(Error::CaptchaFailed))
    } else if !is_valid_email(data.email@) {
        next is Done && action == LoginAction::Answer(Err(Error::InvalidEmail))
    } else {
        &&& next is AwaitingAccount
        &&& action matches LoginAction::FindAccount(address)
        &&& address@ == lowercase(data.email@)
    }
}

/// Whether `next` and `action` are the step that a login takes from `state`
/// on `event`.
///
/// A login begins by asking the captcha provider, where a captcha is asked
/// for and a token was sent, and else goes on as if the provider had said no.
/// With the captcha settled it is screened. With the account looked up it is
/// refused with `InvalidCredentials` unless the account and the password
/// grant it, and then a fresh session is sent to the store. With the session
/// appended it is answered with `Success`. A failure of the store is the
/// answer as it came. An event that does not belong to the state ends the
/// login with `InternalError`.
pub open spec fn is_login_step(
    config: Config,
    data: Data,
    now: u64,
    state: LoginState,
    event: LoginEvent,
    next: LoginState,
    action: LoginAction,
) -> bool {
    match (state, event) {
        (LoginState::Start, LoginEvent::Begin) => match (config.captcha, data.captcha) {
            (Captcha::HCaptcha { secret }, Some(token)) => {
                &&& next is AwaitingCaptcha
                &&& action matches LoginAction::VerifyCaptcha(question)
                &&& question.secret == secret
                &&& question.response == token
            },
            _ => is_screening(config, data, false, next, action),
        },
        (LoginState::AwaitingCaptcha, LoginEvent::CaptchaChecked(verified)) => is_screening(
            config,
            data,
            verified,
            next,
            action,
        ),
        (LoginState::AwaitingAccount, LoginEvent::AccountLooked(Ok(found))) => {
            if grants(account_view(found), option_view(data.password)) {
                &&& next matches LoginState::AwaitingAppend { session }
                &&& action matches LoginAction::AppendSession { account_id, session: sent }
                &&& account_id@ == found->0@.id
                &&& sent@ == session@
                &&& session@.user_id == account_id@
                &&& session@.name == session_name(data)
                &&& session@.created_at == now
                &&& is_token(session@.token)
                &&& is_id(session@.id, ID_LENGTH as nat)
            } else {
                next is Done && action == LoginAction::Answer(Err(Error::InvalidCredentials))
            }
        },
        (LoginState::AwaitingAccount, LoginEvent::AccountLooked(Err(e))) => {
            next is Done && action == LoginAction::Answer(Err(e))
        },
        (LoginState::AwaitingAppend { session }, LoginEvent::SessionAppended(Ok(_))) => {
            &&& next is Done
            &&& action matches LoginAction::Answer(Ok(Response::Success(opened)))
            &&& opened@ == session@
        },
        (LoginState::AwaitingAppend { .. }, LoginEvent::SessionAppended(Err(e))) => {
            next is Done && action == LoginAction::Answer(Err(e))
        },
        _ => next is Done && action == LoginAction::Answer(Err(Error::InternalError)),
    }
}

fn screen(config: &Config, data: &Data, verified: bool) -> (r: (LoginState, LoginAction))
    ensures
        is_screening(*config, *data, verified, r.0, r.1),
{
    match check_captcha(config, &data.captcha, verified) {
        Ok(()) => {},
        Err(e) => {
            return (LoginState::Done, LoginAction::Answer(Err(e)));
        },
    }
    match validate_email(&data.email) {
        Ok(()) => {},
        Err(e) => {
            return (LoginState::Done, LoginAction::Answer(Err(e)));
        },
    }
    (LoginState::AwaitingAccount, LoginAction::FindAccount(normalise_email(data.email.as_str())))
}

/// Takes one step of a login: from where it stands and what came back to
/// where it stands next and what is to be done. The caller does what the
/// action says and comes back with the event; on `Answer` the login is over.
pub fn login_step(
    config: &Config,
    data: &Data,
    now: u64,
    state: LoginState,
    event: LoginEvent,
) -> (r: (LoginState, LoginAction))
    ensures
        is_login_step(*config, *data, now, state, event, r.0, r.1),
        steps_left(r.0) < steps_left(state) || state is Done,
{
    match (state, event) {
        (LoginState::Start, LoginEvent::Begin) => match captcha_request(config, &data.captcha) {
            Some(question) => (LoginState::AwaitingCaptcha, LoginAction::VerifyCaptcha(question)),
            None => screen(config, data, false),
        },
        (LoginState::AwaitingCaptcha, LoginEvent::CaptchaChecked(verified)) => screen(
            config,
            data,
            verified,
        ),
        (LoginState::AwaitingAccount, LoginEvent::AccountLooked(Ok(found))) => {
            match check_credentials(&found, data) {
                Ok(()) => {},
                Err(e) => {
                    return (LoginState::Done, LoginAction::Answer(Err(e)));
                },
            }
            match found {
                Some(account) => {
                    let session = new_session(&account.id, name_of_session(data), now);
                    let sent = session.clone();
                    (
                        LoginState::AwaitingAppend { session },
                        LoginAction::AppendSession { account_id: account.id, session: sent },
                    )
                },
                None => (LoginState::Done, LoginAction::Answer(Err(Error::InvalidCredentials))),
            }
        },
        (LoginState::AwaitingAccount, LoginEvent::AccountLooked(Err(e))) => (
            LoginState::Done,
            LoginAction::Answer(Err(e)),
        ),
        (LoginState::AwaitingAppend { session }, LoginEvent::SessionAppended(Ok(()))) => (
            LoginState::Done,
            LoginAction::Answer(Ok(Response::Success(session))),
        ),
        (LoginState::AwaitingAppend { .. }, LoginEvent::SessionAppended(Err(e))) => (
            LoginState::Done,
            LoginAction::Answer(Err(e)),
        ),
        _ => (LoginState::Done, LoginAction::Answer(Err(Error::InternalError))),
    }
}

/// Whether `r` is an answer that a login may get from a store that it found
/// in state `before` and left in state `after`.
///
/// The request is refused as `login_rejection` says, with the store
/// unchanged. Otherwise a session is opened for the account registered under
/// the address, and the answer is `Success` with that session, unless the
/// store refuses the append, which it does only where it keeps nothing or the
/// fresh token met one that is in use.
pub open spec fn is_login_outcome(
    config: Config,
    before: Seq<AccountView>,
    persistent: bool,
    after: Seq<AccountView>,
    data: Data,
    captcha_verified: bool,
    now: u64,
    r: Result<Response, Error>,
) -> bool {
    match login_rejection(config, before, data, captcha_verified) {
        Some(e) => r == Err::<Response, Error>(e) && after == before,
        None => {
            let account = lookup_email(before, lowercase(data.email@))->0;
            match r {
                Ok(Response::Success(s)) => {
                    &&& s@.user_id == account.id
                    &&& s@.name == session_name(data)
                    &&& s@.created_at == now
                    &&& is_token(s@.token)
                    &&& can_append(before, account.id, s@)
                    &&& after == with_session(before, account.id, s@)
                },
                Ok(_) => false,
                Err(e) => {
                    &&& e.is_database_error(OP_APPEND@, RES_ACCOUNT@)
                    &&& after == before
                    &&& !persistent || holds_random_token(before)
                },
            }
        },
    }
}

/// What holds between two steps of a login that runs against a store.
spec fn flow_holds(
    config: Config,
    before: Seq<AccountView>,
    persistent: bool,
    current: Seq<AccountView>,
    data: Data,
    captcha_verified: bool,
    now: u64,
    state: LoginState,
    action: LoginAction,
) -> bool {
    match state {
        LoginState::Start => false,
        LoginState::AwaitingCaptcha => {
            &&& current == before
            &&& action is VerifyCaptcha
            &&& config.captcha is HCaptcha
            &&& data.captcha is Some
        },
        LoginState::AwaitingAccount => {
            &&& current == before
            &&& captcha_passes(config.captcha, data.captcha, captcha_verified)
            &&& is_valid_email(data.email@)
            &&& action matches LoginAction::FindAccount(address)
            &&& address@ == lowercase(data.email@)
        },
        LoginState::AwaitingAppend { session } => {
            &&& current == before
            &&& login_rejection(config, before, data, captcha_verified) is None
            &&& lookup_email(before, lowercase(data.email@)) matches Some(account)
            &&& has_id(before, account.id)
            &&& action matches LoginAction::AppendSession { account_id, session: sent }
            &&& account_id@ == account.id
            &&& sent@ == session@
            &&& session@.user_id == account.id
            &&& session@.name == session_name(data)
            &&& session@.created_at == now
            &&& is_token(session@.token)
        },
        LoginState::Done => {
            &&& action matches LoginAction::Answer(r)
            &&& is_login_outcome(
                config,
                before,
                persistent,
                current,
                data,
                captcha_verified,
                now,
                r,
            )
        },
    }
}

/// Logs in against the service's own store. `captcha_verified` says whether
/// the captcha provider accepted the request's token, `now` is the time in
/// seconds since the epoch.
///
/// The login is taken step by step with `login_step`; what each step asks of
/// the store is done on `auth.db`. The answer is the one that
/// `is_login_outcome` describes.
pub fn login(auth: &mut Auth, data: Data, captcha_verified: bool, now: u64) -> (r: Result<
    Response,
    Error,
>)
    ensures
        final(auth).config == old(auth).config,
        final(auth).db.persistent() == old(auth).db.persistent(),
        store_wf(old(auth).db.state()) ==> store_wf(final(auth).db.state()),
        is_login_outcome(
            old(auth).config,
            old(auth).db.state(),
            old(auth).db.persistent(),
            final(auth).db.state(),
            data,
            captcha_verified,
            now,
            r,
        ),
{
    let (first, first_action) = login_step(
        &auth.config,
        &data,
        now,
        LoginState::Start,
        LoginEvent::Begin,
    );
    let mut state = first;
    let mut action = first_action;
    loop
        invariant
            auth.config == old(auth).config,
            auth.db.persistent() == old(auth).db.persistent(),
            store_wf(old(auth).db.state()) ==> store_wf(auth.db.state()),
            flow_holds(
                old(auth).config,
                old(auth).db.state(),
                old(auth).db.persistent(),
                auth.db.state(),
                data,
                captcha_verified,
                now,
                state,
                action,
            ),
        decreases steps_left(state),
    {
        let ghost before = old(auth).db.state();
        let ghost address = lowercase(data.email@);
        let ghost standing = state;
        let event = match action {
            LoginAction::Answer(answer) => {
                return answer;
            },
            LoginAction::VerifyCaptcha(_) => LoginEvent::CaptchaChecked(captcha_verified),
            LoginAction::FindAccount(address) => LoginEvent::AccountLooked(
                Ok(auth.db.find_account_by_email(&address)),
            ),
            LoginAction::AppendSession { account_id, session } => LoginEvent::SessionAppended(
                auth.db.append_session(&account_id, session),
            ),
        };
        proof {
            if has_email(before, address) {
                let i = index_of_email(before, address);
                assert(before[i].id == before[i].id);
                assert(has_id(before, before[i].id));
            }
            match standing {
                LoginState::AwaitingAppend { session } => {
                    if !can_append(before, session@.user_id, session@) {
                        assert(token_in_use(before, session@.token));
                    }
                },
                _ => {},
            }
        }
        let (next, next_action) = login_step(&auth.config, &data, now, state, event);
        state = next;
        action = next_action;
    }
}

} // verus!
