//! The offline store: it holds nothing and keeps nothing.
use vstd::prelude::*;
use crate::database::definition::{
    AbstractDatabase, OP_APPEND, OP_INSERT, OP_REMOVE, RES_ACCOUNT,
};
use crate::entities::{Account, AccountView, PartialAccount, Projection, Session};
use crate::util::Error;

verus! {

/// A store for a service that runs without a backend. Every lookup finds
/// nothing and every write is refused.
#[derive(Debug, Clone, Copy, PartialEq, Eq, Default)]
pub struct DummyDb;

impl AbstractDatabase for DummyDb {
    open spec fn state(&self) -> Seq<AccountView> {
        Seq::empty()
    }

    open spec fn persistent(&self) -> bool {
        false
    }

    fn find_account_by_email(&self, email: &String) -> (r: Option<Account>)
        ensures
            r is None,
    {
        None
    }

    fn find_account_by_id_and_session_token(
        &self,
        account_id: &String,
        token: &String,
        projection: &Projection,
    ) -> (r: Option<PartialAccount>)
        ensures
            r is None,
    {
        None
    }

    fn append_session(&mut self, account_id: &String, session: Session) -> (r: Result<(), Error>) {
        Err(Error::DatabaseError { operation: OP_APPEND, with: RES_ACCOUNT })
    }

    fn remove_session(&mut self, account_id: &String, token: &String) -> (r: Result<(), Error>) {
        Err(Error::DatabaseError { operation: OP_REMOVE, with: RES_ACCOUNT })
    }

    fn insert_account(&mut self, account: Account) -> (r: Result<(), Error>) {
        Err(Error::DatabaseError { operation: OP_INSERT, with: RES_ACCOUNT })
    }
}

} // verus!
