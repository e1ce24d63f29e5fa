//! What a credential store is: a sequence of accounts, the operations on it,
//! and what each of them returns and changes.
use vstd::prelude::*;
use crate::entities::{
    holds_token, project, Account, AccountView, PartialAccount, PartialAccountView, Projection,
    Session, SessionView,
};
use crate::util::Error;

verus! {

/// Whether the store holds an account with this id.
pub open spec fn has_id(s: Seq<AccountView>, id: Seq<char>) -> bool {
    exists|i: int| 0 <= i < s.len() && (#[trigger] s[i]).id == id
}

/// The place of an account with this id.
pub open spec fn index_of_id(s: Seq<AccountView>, id: Seq<char>) -> int {
    choose|i: int| 0 <= i < s.len() && (#[trigger] s[i]).id == id
}

/// Whether the store holds an account with this email address.
pub open spec fn has_email(s: Seq<AccountView>, email: Seq<char>) -> bool {
    exists|i: int| 0 <= i < s.len() && (#[trigger] s[i]).email == email
}

/// The place of an account with this email address.
pub open spec fn index_of_email(s: Seq<AccountView>, email: Seq<char>) -> int {
    choose|i: int| 0 <= i < s.len() && (#[trigger] s[i]).email == email
}

/// Whether the account has this id and holds a session with this token.
pub open spec fn matches_session(a: AccountView, id: Seq<char>, token: Seq<char>) -> bool {
    a.id == id && holds_token(a, token)
}

/// Whether some account of the store holds a session with this token.
pub open spec fn token_in_use(s: Seq<AccountView>, token: Seq<char>) -> bool {
    exists|i: int| 0 <= i < s.len() && holds_token(#[trigger] s[i], token)
}

/// The account registered under an email address, if there is one.
pub open spec fn lookup_email(s: Seq<AccountView>, email: Seq<char>) -> Option<AccountView> {
    if has_email(s, email) {
        Some(s[index_of_email(s, email)])
    } else {
        None
    }
}

/// The account that has the given id and also holds a session with the given
/// token, if there is one. Neither the id alone nor the token alone finds
/// anything.
pub open spec fn lookup_session(s: Seq<AccountView>, id: Seq<char>, token: Seq<char>) -> Option<
    AccountView,
> {
    if exists|i: int| 0 <= i < s.len() && matches_session(#[trigger] s[i], id, token) {
        Some(s[choose|i: int| 0 <= i < s.len() && matches_session(#[trigger] s[i], id, token)])
    } else {
        None
    }
}

/// The invariant of a store: no two accounts share an id or an email address,
/// every session names the account that holds it, and no token occurs twice
/// anywhere in the store.
pub open spec fn store_wf(s: Seq<AccountView>) -> bool {
    &&& forall|i: int, j: int|
        0 <= i < j < s.len() ==> (#[trigger] s[i]).id != (#[trigger] s[j]).id
    &&& forall|i: int, j: int|
        0 <= i < j < s.len() ==> (#[trigger] s[i]).email != (#[trigger] s[j]).email
    &&& forall|i: int, k: int|
        0 <= i < s.len() && 0 <= k < s[i].sessions.len() ==> (#[trigger] s[i].sessions[k]).user_id
            == s[i].id
    &&& forall|i: int, k: int, j: int, l: int|
        0 <= i < s.len() && 0 <= k < s[i].sessions.len() && 0 <= j < s.len() && 0 <= l
            < s[j].sessions.len() && (i != j || k != l) ==> (#[trigger] s[i].sessions[k]).token != (
        #[trigger] s[j].sessions[l]).token
}

/// Whether a session can be appended under an account id: the account exists,
/// the session names it, and the token is not in use anywhere.
pub open spec fn can_append(s: Seq<AccountView>, id: Seq<char>, session: SessionView) -> bool {
    &&& has_id(s, id)
    &&& session.user_id == id
    &&& !token_in_use(s, session.token)
}

/// The store after a session was appended to the account with the given id:
/// that account's list is one longer, and nothing else has changed.
pub open spec fn with_session(s: Seq<AccountView>, id: Seq<char>, session: SessionView) -> Seq<
    AccountView,
> {
    let i = index_of_id(s, id);
    s.update(i, AccountView { sessions: s[i].sessions.push(session), ..s[i] })
}

/// The place in an account's list of the session that carries the token.
pub open spec fn index_of_token(a: AccountView, token: Seq<char>) -> int {
    choose|k: int| 0 <= k < a.sessions.len() && #[trigger] a.sessions[k].token == token
}

/// Whether a session can be removed: some account has the id and holds a
/// session with the token.
pub open spec fn can_remove(s: Seq<AccountView>, id: Seq<char>, token: Seq<char>) -> bool {
    lookup_session(s, id, token) is Some
}

/// The store after the session with the given token was removed from the
/// account with the given id: that account's list is one shorter, the other
/// sessions keep their order, and nothing else has changed.
pub open spec fn without_session(s: Seq<AccountView>, id: Seq<char>, token: Seq<char>) -> Seq<
    AccountView,
> {
    let i = index_of_id(s, id);
    let k = index_of_token(s[i], token);
    s.update(i, AccountView { sessions: s[i].sessions.remove(k), ..s[i] })
}

/// Whether an account can be inserted: its id and its email address are new,
/// and it has no sessions yet.
pub open spec fn can_insert(s: Seq<AccountView>, a: AccountView) -> bool {
    &&& !has_id(s, a.id)
    &&& !has_email(s, a.email)
    &&& a.sessions.len() == 0
}

/// The view of an optional account.
pub open spec fn account_view(a: Option<Account>) -> Option<AccountView> {
    match a {
        Some(x) => Some(x@),
        None => None,
    }
}

/// The view of an optional partial account.
pub open spec fn partial_view(a: Option<PartialAccount>) -> Option<PartialAccountView> {
    match a {
        Some(x) => Some(x@),
        None => None,
    }
}

/// What a lookup by id and token hands out under a projection.
pub open spec fn lookup_projected(
    s: Seq<AccountView>,
    id: Seq<char>,
    token: Seq<char>,
    projection: Projection,
) -> Option<PartialAccountView> {
    match lookup_session(s, id, token) {
        Some(a) => Some(project(a, projection)),
        None => None,
    }
}

/// Inserting an account that `can_insert` admits keeps the store's invariant.
pub proof fn lemma_insert_keeps_wf(s: Seq<AccountView>, a: AccountView)
    requires
        store_wf(s),
        can_insert(s, a),
    ensures
        store_wf(s.push(a)),
{
    let t = s.push(a);
    assert forall|i: int, j: int| 0 <= i < j < t.len() implies (#[trigger] t[i]).id != (
    #[trigger] t[j]).id by {
        if j == s.len() {
            assert(s[i].id != a.id);
        }
    }
    assert forall|i: int, j: int| 0 <= i < j < t.len() implies (#[trigger] t[i]).email != (
    #[trigger] t[j]).email by {
        if j == s.len() {
            assert(s[i].email != a.email);
        }
    }
}

/// In a store that satisfies its invariant, an id names one place.
pub proof fn lemma_index_of_id(s: Seq<AccountView>, i: int)
    requires
        store_wf(s),
        0 <= i < s.len(),
    ensures
        has_id(s, s[i].id),
        index_of_id(s, s[i].id) == i,
{
    let j = index_of_id(s, s[i].id);
    assert(0 <= j < s.len() && s[j].id == s[i].id);
    if j < i {
        assert(s[j].id != s[i].id);
    } else if i < j {
        assert(s[i].id != s[j].id);
    }
}

/// In a store that satisfies its invariant, an email address names one place.
pub proof fn lemma_index_of_email(s: Seq<AccountView>, i: int)
    requires
        store_wf(s),
        0 <= i < s.len(),
    ensures
        has_email(s, s[i].email),
        lookup_email(s, s[i].email) == Some(s[i]),
{
    let j = index_of_email(s, s[i].email);
    assert(0 <= j < s.len() && s[j].email == s[i].email);
    if j < i {
        assert(s[j].email != s[i].email);
    } else if i < j {
        assert(s[i].email != s[j].email);
    }
}

/// In a store that satisfies its invariant, an id and a token that an
/// account matches find that account.
pub proof fn lemma_lookup_session(s: Seq<AccountView>, i: int, token: Seq<char>)
    requires
        store_wf(s),
        0 <= i < s.len(),
        holds_token(s[i], token),
    ensures
        lookup_session(s, s[i].id, token) == Some(s[i]),
{
    let id = s[i].id;
    assert(matches_session(s[i], id, token));
    let j = choose|j: int| 0 <= j < s.len() && matches_session(#[trigger] s[j], id, token);
    if j < i {
        assert(s[j].id != s[i].id);
    } else if i < j {
        assert(s[i].id != s[j].id);
    }
}

/// Appending a session that `can_append` admits keeps the store's invariant.
pub proof fn lemma_append_keeps_wf(s: Seq<AccountView>, id: Seq<char>, session: SessionView)
    requires
        store_wf(s),
        can_append(s, id, session),
    ensures
        store_wf(with_session(s, id, session)),
{
    let i = index_of_id(s, id);
    let t = with_session(s, id, session);
    let n = s[i].sessions.len() as int;
    assert(t.len() == s.len());
    assert forall|p: int| 0 <= p < s.len() implies (#[trigger] t[p]).id == s[p].id && t[p].email
        == s[p].email by {}
    assert forall|p: int, k: int| 0 <= p < t.len() && 0 <= k < t[p].sessions.len() implies (
    #[trigger] t[p].sessions[k]).user_id == t[p].id by {
        if p == i && k == n {
        } else {
            assert(t[p].sessions[k] == s[p].sessions[k]);
        }
    }
    assert forall|p: int, k: int, q: int, l: int|
        0 <= p < t.len() && 0 <= k < t[p].sessions.len() && 0 <= q < t.len() && 0 <= l
            < t[q].sessions.len() && (p != q || k != l) implies (#[trigger] t[p].sessions[k]).token
        != (#[trigger] t[q].sessions[l]).token by {
        let new_p = p == i && k == n;
        let new_q = q == i && l == n;
        if new_p {
            assert(!holds_token(s[q], session.token));
            assert(t[q].sessions[l] == s[q].sessions[l]);
        } else if new_q {
            assert(!holds_token(s[p], session.token));
            assert(t[p].sessions[k] == s[p].sessions[k]);
        } else {
            assert(t[p].sessions[k] == s[p].sessions[k]);
            assert(t[q].sessions[l] == s[q].sessions[l]);
        }
    }
}

/// Removing a session keeps the store's invariant, and the token that was
/// removed is then in use nowhere: it opens nothing any more, under any
/// account id.
pub proof fn lemma_remove_keeps_wf(s: Seq<AccountView>, id: Seq<char>, token: Seq<char>)
    requires
        store_wf(s),
        can_remove(s, id, token),
    ensures
        store_wf(without_session(s, id, token)),
        !token_in_use(without_session(s, id, token), token),
        forall|other: Seq<char>| lookup_session(without_session(s, id, token), other, token) is None,
{
    let j = choose|j: int| 0 <= j < s.len() && matches_session(#[trigger] s[j], id, token);
    lemma_index_of_id(s, j);
    let i = index_of_id(s, id);
    assert(i == j);
    let k = index_of_token(s[i], token);
    assert(0 <= k < s[i].sessions.len() && s[i].sessions[k].token == token);
    let t = without_session(s, id, token);
    assert(t.len() == s.len());
    assert forall|p: int| 0 <= p < s.len() implies (#[trigger] t[p]).id == s[p].id && t[p].email
        == s[p].email by {}
    // Where a session of the new store stood in the old one.
    let from = |p: int, m: int| if p == i && m >= k { m + 1 } else { m };
    assert forall|p: int, m: int| 0 <= p < t.len() && 0 <= m < t[p].sessions.len() implies 0
        <= from(p, m) < s[p].sessions.len() && #[trigger] t[p].sessions[m] == s[p].sessions[from(
        p,
        m,
    )] && (p != i || from(p, m) != k) by {}
    assert forall|p: int, m: int| 0 <= p < t.len() && 0 <= m < t[p].sessions.len() implies (
    #[trigger] t[p].sessions[m]).user_id == t[p].id by {
        assert(t[p].sessions[m] == s[p].sessions[from(p, m)]);
    }
    assert forall|p: int, m: int, q: int, l: int|
        0 <= p < t.len() && 0 <= m < t[p].sessions.len() && 0 <= q < t.len() && 0 <= l
            < t[q].sessions.len() && (p != q || m != l) implies (#[trigger] t[p].sessions[m]).token
        != (#[trigger] t[q].sessions[l]).token by {
        assert(t[p].sessions[m] == s[p].sessions[from(p, m)]);
        assert(t[q].sessions[l] == s[q].sessions[from(q, l)]);
        lemma_tokens_are_unique(s, p, from(p, m), q, from(q, l));
    }
    assert forall|p: int| 0 <= p < t.len() implies !holds_token(#[trigger] t[p], token) by {
        if holds_token(t[p], token) {
            let m = choose|m: int|
                0 <= m < t[p].sessions.len() && #[trigger] t[p].sessions[m].token == token;
            assert(t[p].sessions[m] == s[p].sessions[from(p, m)]);
            lemma_tokens_are_unique(s, p, from(p, m), i, k);
        }
    }
    assert forall|other: Seq<char>| lookup_session(t, other, token) is None by {
        assert forall|p: int| 0 <= p < t.len() implies !matches_session(
            #[trigger] t[p],
            other,
            token,
        ) by {
            assert(!holds_token(t[p], token));
        }
    }
}

/// What a lookup by id and token finds has that id and holds that token,
/// whatever else the store holds.
pub proof fn lemma_lookup_session_matches(s: Seq<AccountView>, id: Seq<char>, token: Seq<char>)
    ensures
        lookup_session(s, id, token) matches Some(a) ==> a.id == id && holds_token(a, token),
        lookup_session(s, id, token) is None ==> forall|i: int|
            0 <= i < s.len() ==> !matches_session(#[trigger] s[i], id, token),
{
}

/// No token occurs twice in a store that satisfies its invariant, be it in
/// one account's list or in two.
pub proof fn lemma_tokens_are_unique(s: Seq<AccountView>, i: int, k: int, j: int, l: int)
    requires
        store_wf(s),
        0 <= i < s.len(),
        0 <= k < s[i].sessions.len(),
        0 <= j < s.len(),
        0 <= l < s[j].sessions.len(),
        i != j || k != l,
    ensures
        s[i].sessions[k].token != s[j].sessions[l].token,
{
}

/// A token that one account holds finds nothing under another account's id.
pub proof fn lemma_token_of_other_account_finds_nothing(
    s: Seq<AccountView>,
    i: int,
    token: Seq<char>,
    other_id: Seq<char>,
)
    requires
        store_wf(s),
        0 <= i < s.len(),
        holds_token(s[i], token),
        other_id != s[i].id,
    ensures
        lookup_session(s, other_id, token) is None,
{
    let k = choose|k: int| 0 <= k < s[i].sessions.len() && #[trigger] s[i].sessions[k].token == token;
    assert forall|j: int| 0 <= j < s.len() implies !matches_session(
        #[trigger] s[j],
        other_id,
        token,
    ) by {
        if matches_session(s[j], other_id, token) {
            let l = choose|l: int|
                0 <= l < s[j].sessions.len() && #[trigger] s[j].sessions[l].token == token;
            assert(j != i);
            lemma_tokens_are_unique(s, i, k, j, l);
        }
    }
}

/// What an append leaves behind: the store with the session where it can be
/// appended, and the store as it was where it cannot.
pub open spec fn append_result(s: Seq<AccountView>, id: Seq<char>, session: SessionView) -> Seq<
    AccountView,
> {
    if can_append(s, id, session) {
        with_session(s, id, session)
    } else {
        s
    }
}

/// What a run of appends leaves behind, each given as an account id and a
/// session, the first of the sequence first.
pub open spec fn after_appends(
    s: Seq<AccountView>,
    requests: Seq<(Seq<char>, SessionView)>,
) -> Seq<AccountView>
    decreases requests.len(),
{
    if requests.len() == 0 {
        s
    } else {
        let (id, session) = requests.last();
        append_result(after_appends(s, requests.drop_last()), id, session)
    }
}

/// However many sessions are appended, to one account or to many, the store
/// keeps its invariant: no two of its sessions share a token.
pub proof fn lemma_appends_keep_wf(s: Seq<AccountView>, requests: Seq<(Seq<char>, SessionView)>)
    requires
        store_wf(s),
    ensures
        store_wf(after_appends(s, requests)),
    decreases requests.len(),
{
    if requests.len() > 0 {
        let (id, session) = requests.last();
        let before = after_appends(s, requests.drop_last());
        lemma_appends_keep_wf(s, requests.drop_last());
        if can_append(before, id, session) {
            lemma_append_keeps_wf(before, id, session);
        }
    }
}

/// Two sessions with different tokens that can each be appended to an account
/// can be appended one after the other, and then a lookup by either token
/// finds the account with both at the end of its list. Taken with the two
/// sessions exchanged, this says the same of the other order: neither append
/// undoes the other.
pub proof fn lemma_two_appends_both_land(
    s: Seq<AccountView>,
    id: Seq<char>,
    a: SessionView,
    b: SessionView,
)
    requires
        store_wf(s),
        can_append(s, id, a),
        can_append(s, id, b),
        a.token != b.token,
    ensures
        can_append(with_session(s, id, a), id, b),
        store_wf(with_session(with_session(s, id, a), id, b)),
        ({
            let t = with_session(with_session(s, id, a), id, b);
            let list = s[index_of_id(s, id)].sessions.push(a).push(b);
            &&& lookup_session(t, id, a.token) matches Some(account) && account.sessions == list
            &&& lookup_session(t, id, b.token) matches Some(account) && account.sessions == list
        }),
{
    let i = index_of_id(s, id);
    let n = s[i].sessions.len() as int;
    let s1 = with_session(s, id, a);
    lemma_append_keeps_wf(s, id, a);
    assert(s1[i].id == id);
    lemma_index_of_id(s1, i);
    assert forall|p: int| 0 <= p < s1.len() implies !holds_token(#[trigger] s1[p], b.token) by {
        if holds_token(s1[p], b.token) {
            let k = choose|k: int|
                0 <= k < s1[p].sessions.len() && #[trigger] s1[p].sessions[k].token == b.token;
            if p == i && k == n {
            } else {
                assert(s1[p].sessions[k] == s[p].sessions[k]);
                assert(holds_token(s[p], b.token));
            }
        }
    }
    assert(can_append(s1, id, b));
    let t = with_session(s1, id, b);
    lemma_append_keeps_wf(s1, id, b);
    assert(t[i].id == id);
    assert(t[i].sessions == s[i].sessions.push(a).push(b));
    assert(t[i].sessions[n].token == a.token);
    assert(t[i].sessions[n + 1].token == b.token);
    lemma_lookup_session(t, i, a.token);
    lemma_lookup_session(t, i, b.token);
}

/// The name under which a failed append is reported.
pub const OP_APPEND: &'static str = "update_one";

/// The name under which a failed removal is reported.
pub const OP_REMOVE: &'static str = "update_one";

/// The name under which a failed insert is reported.
pub const OP_INSERT: &'static str = "insert_one";

/// The name under which a failed lookup is reported.
pub const OP_FIND: &'static str = "find_one";

/// The resource that the operations work on.
pub const RES_ACCOUNT: &'static str = "account";

/// The persistence that the service needs, and nothing more.
///
/// A store is a sequence of accounts, `state`, that satisfies `store_wf`. A
/// store that is not `persistent` refuses every write.
pub trait AbstractDatabase {
    /// The accounts that the store holds, oldest first.
    spec fn state(&self) -> Seq<AccountView>;

    /// Whether the store keeps what is written to it.
    spec fn persistent(&self) -> bool;

    /// The account registered under an email address.
    fn find_account_by_email(&self, email: &String) -> (r: Option<Account>)
        ensures
            store_wf(self.state()),
            account_view(r) == lookup_email(self.state(), email@),
    ;

    /// The account that has this id and holds a session with this token, cut
    /// down to the fields that the projection asks for.
    fn find_account_by_id_and_session_token(
        &self,
        account_id: &String,
        token: &String,
        projection: &Projection,
    ) -> (r: Option<PartialAccount>)
        ensures
            store_wf(self.state()),
            partial_view(r) == lookup_projected(self.state(), account_id@, token@, *projection),
    ;

    /// Appends a session to an account's list in one step. Refused, with the
    /// store unchanged, when the account is missing, the session names another
    /// account, or the token is already in use.
    fn append_session(&mut self, account_id: &String, session: Session) -> (r: Result<(), Error>)
        ensures
            final(self).persistent() == old(self).persistent(),
            store_wf(old(self).state()),
            store_wf(final(self).state()),
            r is Ok <==> old(self).persistent() && can_append(
                old(self).state(),
                account_id@,
                session@,
            ),
            r is Ok ==> final(self).state() == with_session(
                old(self).state(),
                account_id@,
                session@,
            ),
            r matches Err(e) ==> final(self).state() == old(self).state() && e.is_database_error(
                OP_APPEND@,
                RES_ACCOUNT@,
            ),
    ;

    /// Removes the session with the given token from an account's list in one
    /// step. Refused, with the store unchanged, when no account has the id and
    /// holds the token.
    fn remove_session(&mut self, account_id: &String, token: &String) -> (r: Result<(), Error>)
        ensures
            final(self).persistent() == old(self).persistent(),
            store_wf(old(self).state()),
            store_wf(final(self).state()),
            r is Ok <==> old(self).persistent() && can_remove(
                old(self).state(),
                account_id@,
                token@,
            ),
            r is Ok ==> final(self).state() == without_session(
                old(self).state(),
                account_id@,
                token@,
            ),
            r matches Err(e) ==> final(self).state() == old(self).state() && e.is_database_error(
                OP_REMOVE@,
                RES_ACCOUNT@,
            ),
    ;

    /// Adds an account. Refused, with the store unchanged, when its id or its
    /// email address is taken or it already carries sessions.
    fn insert_account(&mut self, account: Account) -> (r: Result<(), Error>)
        ensures
            final(self).persistent() == old(self).persistent(),
            store_wf(old(self).state()),
            store_wf(final(self).state()),
            r is Ok <==> old(self).persistent() && can_insert(old(self).state(), account@),
            r is Ok ==> final(self).state() == old(self).state().push(account@),
            r matches Err(e) ==> final(self).state() == old(self).state() && e.is_database_error(
                OP_INSERT@,
                RES_ACCOUNT@,
            ),
    ;
}

} // verus!
