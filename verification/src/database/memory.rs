//! A store that keeps its accounts in memory.
use vstd::prelude::*;
use crate::database::definition::{
    has_email, has_id, index_of_token, lemma_append_keeps_wf, lemma_index_of_email,
    lemma_index_of_id, lemma_insert_keeps_wf, lemma_lookup_session, lemma_remove_keeps_wf,
    lemma_tokens_are_unique, matches_session, store_wf, token_in_use, with_session,
    without_session, AbstractDatabase, OP_APPEND, OP_INSERT, OP_REMOVE, RES_ACCOUNT,
};
use crate::entities::{holds_token, Account, AccountView, PartialAccount, Projection, Session};
use crate::util::Error;

verus! {

/// The views of a sequence of accounts, in the same order.
pub open spec fn account_views(accounts: Seq<Account>) -> Seq<AccountView> {
    accounts.map_values(|a: Account| a@)
}

/// A store that lives as long as the value does. It keeps the invariant of a
/// store by refusing every write that would break it.
pub struct MemoryDb {
    accounts: Vec<Account>,
}

impl MemoryDb {
    #[verifier::type_invariant]
    spec fn inv(self) -> bool {
        store_wf(account_views(self.accounts@))
    }

    /// An empty store.
    pub fn new() -> (r: MemoryDb)
        ensures
            r.state() == Seq::<AccountView>::empty(),
    {
        let r = MemoryDb { accounts: Vec::new() };
        assert(account_views(r.accounts@) =~= Seq::<AccountView>::empty());
        r
    }

    /// The number of accounts in the store.
    pub fn len(&self) -> (r: usize)
        ensures
            r == self.state().len(),
    {
        self.accounts.len()
    }

    fn position_of_id(&self, id: &String) -> (r: Option<usize>)
        ensures
            match r {
                Some(i) => i < self.state().len() && self.state()[i as int].id == id@,
                None => !has_id(self.state(), id@),
            },
    {
        let mut i: usize = 0;
        while i < self.accounts.len()
            invariant
                i <= self.accounts.len(),
                forall|j: int| 0 <= j < i ==> (#[trigger] self.state()[j]).id != id@,
            decreases self.accounts.len() - i,
        {
            if self.accounts[i].id == *id {
                return Some(i);
            }
            i += 1;
        }
        None
    }

    fn position_of_email(&self, email: &String) -> (r: Option<usize>)
        ensures
            match r {
                Some(i) => i < self.state().len() && self.state()[i as int].email == email@,
                None => !has_email(self.state(), email@),
            },
    {
        let mut i: usize = 0;
        while i < self.accounts.len()
            invariant
                i <= self.accounts.len(),
                forall|j: int| 0 <= j < i ==> (#[trigger] self.state()[j]).email != email@,
            decreases self.accounts.len() - i,
        {
            if self.accounts[i].email == *email {
                return Some(i);
            }
            i += 1;
        }
        None
    }

    /// Whether some session in the store carries the token.
    pub fn token_in_use(&self, token: &String) -> (r: bool)
        ensures
            r == token_in_use(self.state(), token@),
    {
        let mut i: usize = 0;
        while i < self.accounts.len()
            invariant
                i <= self.accounts.len(),
                forall|j: int| 0 <= j < i ==> !holds_token(#[trigger] self.state()[j], token@),
            decreases self.accounts.len() - i,
        {
            if self.accounts[i].holds_token(token) {
                assert(holds_token(self.state()[i as int], token@));
                return true;
            }
            i += 1;
        }
        false
    }
}

impl AbstractDatabase for MemoryDb {
    closed spec fn state(&self) -> Seq<AccountView> {
        account_views(self.accounts@)
    }

    open spec fn persistent(&self) -> bool {
        true
    }

    fn find_account_by_email(&self, email: &String) -> (r: Option<Account>) {
        proof {
            use_type_invariant(self);
        }
        match self.position_of_email(email) {
            Some(i) => {
                proof {
                    lemma_index_of_email(self.state(), i as int);
                }
                Some(self.accounts[i].clone())
            },
            None => None,
        }
    }

    fn find_account_by_id_and_session_token(
        &self,
        account_id: &String,
        token: &String,
        projection: &Projection,
    ) -> (r: Option<PartialAccount>) {
        proof {
            use_type_invariant(self);
        }
        match self.position_of_id(account_id) {
            Some(i) => {
                proof {
                    lemma_index_of_id(self.state(), i as int);
                }
                if self.accounts[i].holds_token(token) {
                    proof {
                        lemma_lookup_session(self.state(), i as int, token@);
                    }
                    Some(self.accounts[i].project(projection))
                } else {
                    assert forall|j: int| 0 <= j < self.state().len() implies !matches_session(
                        #[trigger] self.state()[j],
                        account_id@,
                        token@,
                    ) by {
                        if j != i as int && self.state()[j].id == account_id@ {
                            lemma_index_of_id(self.state(), j);
                        }
                    }
                    None
                }
            },
            None => None,
        }
    }

    fn append_session(&mut self, account_id: &String, session: Session) -> (r: Result<(), Error>) {
        proof {
            use_type_invariant(&*self);
        }
        let found = self.position_of_id(account_id);
        match found {
            Some(i) => {
                if session.user_id != *account_id || self.token_in_use(&session.token) {
                    return Err(Error::DatabaseError { operation: OP_APPEND, with: RES_ACCOUNT });
                }
                proof {
                    lemma_index_of_id(self.state(), i as int);
                    lemma_append_keeps_wf(self.state(), account_id@, session@);
                }
                let ghost before = self.accounts@;
                let ghost added = session@;
                let mut accounts: Vec<Account> = Vec::new();
                assert(account_views(accounts@) =~= Seq::<AccountView>::empty());
                core::mem::swap(&mut self.accounts, &mut accounts);
                let mut account = accounts[i].clone();
                account.sessions.push(session);
                assert(account@.sessions =~= before[i as int]@.sessions.push(added));
                accounts.set(i, account);
                assert(account_views(accounts@) =~= with_session(
                    account_views(before),
                    account_id@,
                    added,
                ));
                core::mem::swap(&mut self.accounts, &mut accounts);
                Ok(())
            },
            None => Err(Error::DatabaseError { operation: OP_APPEND, with: RES_ACCOUNT }),
        }
    }

    fn remove_session(&mut self, account_id: &String, token: &String) -> (r: Result<(), Error>) {
        proof {
            use_type_invariant(&*self);
        }
        let refused = Err(Error::DatabaseError { operation: OP_REMOVE, with: RES_ACCOUNT });
        let i = match self.position_of_id(account_id) {
            Some(i) => i,
            None => {
                return refused;
            },
        };
        proof {
            lemma_index_of_id(self.state(), i as int);
        }
        let k = match self.accounts[i].position_of_token(token) {
            Some(k) => k,
            None => {
                assert forall|j: int| 0 <= j < self.state().len() implies !matches_session(
                    #[trigger] self.state()[j],
                    account_id@,
                    token@,
                ) by {
                    if j != i as int && self.state()[j].id == account_id@ {
                        lemma_index_of_id(self.state(), j);
                    }
                }
                return refused;
            },
        };
        let ghost before = self.accounts@;
        proof {
            let s = self.state();
            lemma_lookup_session(s, i as int, token@);
            lemma_remove_keeps_wf(s, account_id@, token@);
            let chosen = index_of_token(s[i as int], token@);
            if chosen != k as int {
                lemma_tokens_are_unique(s, i as int, chosen, i as int, k as int);
            }
        }
        let mut accounts: Vec<Account> = Vec::new();
        assert(account_views(accounts@) =~= Seq::<AccountView>::empty());
        core::mem::swap(&mut self.accounts, &mut accounts);
        let mut account = accounts[i].clone();
        let gone = account.sessions.remove(k);
        assert(account@.sessions =~= before[i as int]@.sessions.remove(k as int));
        accounts.set(i, account);
        assert(account_views(accounts@) =~= without_session(
            account_views(before),
            account_id@,
            token@,
        ));
        core::mem::swap(&mut self.accounts, &mut accounts);
        Ok(())
    }

    fn insert_account(&mut self, account: Account) -> (r: Result<(), Error>) {
        proof {
            use_type_invariant(&*self);
        }
        if account.sessions.len() != 0 || self.position_of_id(&account.id).is_some()
            || self.position_of_email(&account.email).is_some() {
            return Err(Error::DatabaseError { operation: OP_INSERT, with: RES_ACCOUNT });
        }
        proof {
            assert(account@.sessions.len() == 0);
            lemma_insert_keeps_wf(self.state(), account@);
        }
        let ghost before = self.accounts@;
        let ghost added = account@;
        let mut accounts: Vec<Account> = Vec::new();
        assert(account_views(accounts@) =~= Seq::<AccountView>::empty());
        core::mem::swap(&mut self.accounts, &mut accounts);
        accounts.push(account);
        assert(account_views(accounts@) =~= account_views(before).push(added));
        core::mem::swap(&mut self.accounts, &mut accounts);
        Ok(())
    }
}

} // verus!
