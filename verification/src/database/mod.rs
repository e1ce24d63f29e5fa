//! Credential stores, and the choice between them.
use vstd::prelude::*;
use crate::database::definition::AbstractDatabase;
use crate::database::dummy::DummyDb;
use crate::database::memory::MemoryDb;
use crate::entities::{Account, AccountView, PartialAccount, Projection, Session};
use crate::util::Error;

pub mod definition;
pub mod dummy;
pub mod memory;

verus! {

/// The store that a service was built with. The choice is made once, when the
/// value is made; every operation goes to the store that was chosen.
pub enum Database {
    /// No backend: nothing is found and nothing is kept.
    Dummy(DummyDb),
    /// Accounts kept in memory.
    Memory(MemoryDb),
}

impl Default for Database {
    /// The offline store, so that a service that was given no backend keeps
    /// nothing rather than something it cannot persist.
    fn default() -> (r: Self)
        ensures
            r is Dummy,
            r.state() == Seq::<AccountView>::empty(),
            !r.persistent(),
    {
        Database::Dummy(DummyDb)
    }
}

impl Database {
    /// The number of accounts in the store.
    pub fn len(&self) -> (r: usize)
        ensures
            r == self.state().len(),
    {
        match self {
            Database::Dummy(_) => 0,
            Database::Memory(m) => m.len(),
        }
    }
}

impl AbstractDatabase for Database {
    open spec fn state(&self) -> Seq<AccountView> {
        match self {
            Database::Dummy(d) => d.state(),
            Database::Memory(m) => m.state(),
        }
    }

    open spec fn persistent(&self) -> bool {
        match self {
            Database::Dummy(d) => d.persistent(),
            Database::Memory(m) => m.persistent(),
        }
    }

    fn find_account_by_email(&self, email: &String) -> (r: Option<Account>) {
        match self {
            Database::Dummy(d) => d.find_account_by_email(email),
            Database::Memory(m) => m.find_account_by_email(email),
        }
    }

    fn find_account_by_id_and_session_token(
        &self,
        account_id: &String,
        token: &String,
        projection: &Projection,
    ) -> (r: Option<PartialAccount>) {
        match self {
            Database::Dummy(d) => d.find_account_by_id_and_session_token(
                account_id,
                token,
                projection,
            ),
            Database::Memory(m) => m.find_account_by_id_and_session_token(
                account_id,
                token,
                projection,
            ),
        }
    }

    fn append_session(&mut self, account_id: &String, session: Session) -> (r: Result<(), Error>) {
        match self {
            Database::Dummy(d) => d.append_session(account_id, session),
            Database::Memory(m) => m.append_session(account_id, session),
        }
    }

    fn remove_session(&mut self, account_id: &String, token: &String) -> (r: Result<(), Error>) {
        match self {
            Database::Dummy(d) => d.remove_session(account_id, token),
            Database::Memory(m) => m.remove_session(account_id, token),
        }
    }

    fn insert_account(&mut self, account: Account) -> (r: Result<(), Error>) {
        match self {
            Database::Dummy(d) => d.insert_account(account),
            Database::Memory(m) => m.insert_account(account),
        }
    }
}

} // verus!
