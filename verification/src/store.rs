//! The relational store as the service sees it: the queries it is asked,
//! the replies it gives, and an in-memory store that answers them.
use vstd::prelude::*;

use crate::models::{Account, Session, StudentData, StudentSession};
use crate::rows::{first_where, found_in_prefix_is_found, pairwise, without, without_of_push};

verus! {

/// The condition by which accounts are looked up.
#[derive(Debug)]
pub enum AccountKey {
    Uuid(u128),
    Username(String),
    UsernameOrEmail { username: String, email: String },
}

/// An [`AccountKey`] as contracts see it.
pub enum AccountKeyView {
    Uuid(u128),
    Username(Seq<char>),
    UsernameOrEmail { username: Seq<char>, email: Seq<char> },
}

impl AccountKeyView {
    /// Whether the key selects the account.
    pub open spec fn selects(self, account: Account) -> bool {
        match self {
            AccountKeyView::Uuid(uuid) => account.uuid == uuid,
            AccountKeyView::Username(username) => account.username == username,
            AccountKeyView::UsernameOrEmail { username, email } => account.username == username
                || account.email == email,
        }
    }
}

impl View for AccountKey {
    type V = AccountKeyView;

    open spec fn view(&self) -> AccountKeyView {
        match self {
            AccountKey::Uuid(uuid) => AccountKeyView::Uuid(*uuid),
            AccountKey::Username(username) => AccountKeyView::Username(username@),
            AccountKey::UsernameOrEmail { username, email } => AccountKeyView::UsernameOrEmail {
                username: username@,
                email: email@,
            },
        }
    }
}

impl AccountKey {
    /// Whether the key selects the account.
    pub fn selects(&self, account: &StudentData) -> (hit: bool)
        ensures
            hit == self@.selects(account@),
    {
        match self {
            AccountKey::Uuid(uuid) => account.uuid == *uuid,
            AccountKey::Username(username) => account.username == *username,
            AccountKey::UsernameOrEmail { username, email } => account.username == *username
                || account.email == *email,
        }
    }
}

/// The condition by which sessions are looked up and deleted.
#[derive(Debug)]
pub enum SessionKey {
    Token(String),
    Owner(u128),
    TokenAndOwner { ssid: String, belongs_to: u128 },
}

/// A [`SessionKey`] as contracts see it.
pub enum SessionKeyView {
    Token(Seq<char>),
    Owner(u128),
    TokenAndOwner { ssid: Seq<char>, belongs_to: u128 },
}

impl SessionKeyView {
    /// Whether the key selects the session.
    pub open spec fn selects(self, session: Session) -> bool {
        match self {
            SessionKeyView::Token(ssid) => session.ssid == ssid,
            SessionKeyView::Owner(belongs_to) => session.belongs_to == belongs_to,
            SessionKeyView::TokenAndOwner { ssid, belongs_to } => session.ssid == ssid
                && session.belongs_to == belongs_to,
        }
    }
}

impl View for SessionKey {
    type V = SessionKeyView;

    open spec fn view(&self) -> SessionKeyView {
        match self {
            SessionKey::Token(ssid) => SessionKeyView::Token(ssid@),
            SessionKey::Owner(belongs_to) => SessionKeyView::Owner(*belongs_to),
            SessionKey::TokenAndOwner { ssid, belongs_to } => SessionKeyView::TokenAndOwner {
                ssid: ssid@,
                belongs_to: *belongs_to,
            },
        }
    }
}

impl SessionKey {
    /// Whether the key selects the session.
    pub fn selects(&self, session: &StudentSession) -> (hit: bool)
        ensures
            hit == self@.selects(session@),
    {
        match self {
            SessionKey::Token(ssid) => session.ssid == *ssid,
            SessionKey::Owner(belongs_to) => session.belongs_to == *belongs_to,
            SessionKey::TokenAndOwner { ssid, belongs_to } => session.ssid == *ssid
                && session.belongs_to == *belongs_to,
        }
    }
}

/// What the service asks of the store.
#[derive(Debug)]
pub enum Query {
    /// The first account that the key selects.
    FindAccount(AccountKey),
    /// Write a new account.
    InsertAccount(StudentData),
    /// The first session that the key selects.
    FindSession(SessionKey),
    /// Write a new session.
    InsertSession(StudentSession),
    /// Delete every session that the key selects.
    DeleteSessions(SessionKey),
}

/// A [`Query`] as contracts see it.
pub enum QueryView {
    FindAccount(AccountKeyView),
    InsertAccount(Account),
    FindSession(SessionKeyView),
    InsertSession(Session),
    DeleteSessions(SessionKeyView),
}

impl View for Query {
    type V = QueryView;

    open spec fn view(&self) -> QueryView {
        match self {
            Query::FindAccount(key) => QueryView::FindAccount(key@),
            Query::InsertAccount(account) => QueryView::InsertAccount(account@),
            Query::FindSession(key) => QueryView::FindSession(key@),
            Query::InsertSession(session) => QueryView::InsertSession(session@),
            Query::DeleteSessions(key) => QueryView::DeleteSessions(key@),
        }
    }
}

/// Why the store could not carry a query out: the text that the fault
/// displays, and the text of its debugging form.
#[derive(Debug)]
pub struct Failure {
    pub message: String,
    pub detail: String,
}

/// A [`Failure`] as contracts see it.
pub struct FailureView {
    pub message: Seq<char>,
    pub detail: Seq<char>,
}

impl View for Failure {
    type V = FailureView;

    open spec fn view(&self) -> FailureView {
        FailureView { message: self.message@, detail: self.detail@ }
    }
}

/// What the store answers.
#[derive(Debug)]
pub enum Reply {
    /// The account that was found, if any.
    Account(Option<StudentData>),
    /// The session that was found, if any.
    Session(Option<StudentSession>),
    /// The number of rows that were written or deleted.
    Affected(u64),
    /// The query could not be carried out.
    Failed(Failure),
}

/// A [`Reply`] as contracts see it.
pub enum ReplyView {
    Account(Option<Account>),
    Session(Option<Session>),
    Affected(u64),
    Failed(FailureView),
}

impl View for Reply {
    type V = ReplyView;

    open spec fn view(&self) -> ReplyView {
        match self {
            Reply::Account(found) => ReplyView::Account(found.deep_view()),
            Reply::Session(found) => ReplyView::Session(found.deep_view()),
            Reply::Affected(rows) => ReplyView::Affected(*rows),
            Reply::Failed(failure) => ReplyView::Failed(failure@),
        }
    }
}

/// The failure with which the in-memory store refuses an account whose
/// identity, username or email is taken.
pub open spec fn account_conflict() -> FailureView {
    FailureView {
        message: "duplicate key value violates a unique constraint of users"@,
        detail: "Conflict(\"users\")"@,
    }
}

/// The failure with which the in-memory store refuses a session whose token
/// is taken or whose owner is no account.
pub open spec fn session_conflict() -> FailureView {
    FailureView {
        message: "insert violates a constraint of user_sessions"@,
        detail: "Conflict(\"user_sessions\")"@,
    }
}

/// The two relations of the store, each in the order in which its rows were
/// written.
pub struct Tables {
    pub accounts: Seq<Account>,
    pub sessions: Seq<Session>,
}

impl Tables {
    /// The store that holds nothing.
    pub open spec fn empty() -> Tables {
        Tables { accounts: Seq::empty(), sessions: Seq::empty() }
    }

    /// The first account that the key selects.
    pub open spec fn account(self, key: AccountKeyView) -> Option<Account> {
        first_where(self.accounts, |account: Account| key.selects(account))
    }

    /// The first session that the key selects.
    pub open spec fn session(self, key: SessionKeyView) -> Option<Session> {
        first_where(self.sessions, |session: Session| key.selects(session))
    }

    /// Whether the account can be written: its identity, its username and
    /// its email are each borne by no account yet.
    pub open spec fn admits_account(self, account: Account) -> bool {
        &&& self.account(AccountKeyView::Uuid(account.uuid)) is None
        &&& self.account(
            AccountKeyView::UsernameOrEmail { username: account.username, email: account.email },
        ) is None
    }

    /// Whether the session can be written: its token is borne by no session
    /// yet, and its owner is an account.
    pub open spec fn admits_session(self, session: Session) -> bool {
        &&& self.session(SessionKeyView::Token(session.ssid)) is None
        &&& self.account(AccountKeyView::Uuid(session.belongs_to)) is Some
    }

    /// The store with one more account.
    pub open spec fn with_account(self, account: Account) -> Tables {
        Tables { accounts: self.accounts.push(account), sessions: self.sessions }
    }

    /// The store with one more session.
    pub open spec fn with_session(self, session: Session) -> Tables {
        Tables { accounts: self.accounts, sessions: self.sessions.push(session) }
    }

    /// The store without the sessions that the key selects.
    pub open spec fn without_sessions(self, key: SessionKeyView) -> Tables {
        Tables {
            accounts: self.accounts,
            sessions: without(self.sessions, |session: Session| key.selects(session)),
        }
    }

    /// The number of sessions that the key selects.
    pub open spec fn selected_sessions(self, key: SessionKeyView) -> int {
        self.sessions.len() - self.without_sessions(key).sessions.len()
    }

    /// Whether no two accounts share an identity, a username or an email.
    pub open spec fn accounts_are_distinct(self) -> bool {
        pairwise(
            self.accounts,
            |one: Account, other: Account|
                one.uuid != other.uuid && one.username != other.username && one.email
                    != other.email,
        )
    }

    /// Whether no two sessions share a token.
    pub open spec fn tokens_are_distinct(self) -> bool {
        pairwise(self.sessions, |one: Session, other: Session| one.ssid != other.ssid)
    }

    /// Whether every session belongs to an account.
    pub open spec fn sessions_are_owned(self) -> bool {
        forall|i: int|
            0 <= i < self.sessions.len() ==> self.account(
                AccountKeyView::Uuid((#[trigger] self.sessions[i]).belongs_to),
            ) is Some
    }

    /// Whether the store meets the constraints of its two relations.
    pub open spec fn constrained(self) -> bool {
        &&& self.accounts_are_distinct()
        &&& self.tokens_are_distinct()
        &&& self.sessions_are_owned()
    }

    /// Whether no account has more than one session.
    pub open spec fn one_session_each(self) -> bool {
        pairwise(
            self.sessions,
            |one: Session, other: Session| one.belongs_to != other.belongs_to,
        )
    }

    /// The store after a query, and the reply to it.
    pub open spec fn answer(self, query: QueryView) -> (Tables, ReplyView) {
        match query {
            QueryView::FindAccount(key) => (self, ReplyView::Account(self.account(key))),
            QueryView::InsertAccount(account) => if self.admits_account(account) {
                (self.with_account(account), ReplyView::Affected(1))
            } else {
                (self, ReplyView::Failed(account_conflict()))
            },
            QueryView::FindSession(key) => (self, ReplyView::Session(self.session(key))),
            QueryView::InsertSession(session) => if self.admits_session(session) {
                (self.with_session(session), ReplyView::Affected(1))
            } else {
                (self, ReplyView::Failed(session_conflict()))
            },
            QueryView::DeleteSessions(key) => (
                self.without_sessions(key),
                ReplyView::Affected(self.selected_sessions(key) as u64),
            ),
        }
    }
}

/// An in-memory store: two relations and the constraints that the service
/// expects of its database. Identities, usernames and emails are unique
/// among the accounts, tokens are unique among the sessions, and a session
/// belongs to an account.
#[derive(Debug)]
pub struct Store {
    accounts: Vec<StudentData>,
    sessions: Vec<StudentSession>,
}

impl View for Store {
    type V = Tables;

    closed spec fn view(&self) -> Tables {
        Tables { accounts: self.accounts.deep_view(), sessions: self.sessions.deep_view() }
    }
}

impl Store {
    /// A store that holds nothing.
    pub fn new() -> (store: Store)
        ensures
            store@ == Tables::empty(),
    {
        let store = Store { accounts: Vec::new(), sessions: Vec::new() };
        assert(store.accounts.deep_view() =~= Seq::empty());
        assert(store.sessions.deep_view() =~= Seq::empty());
        store
    }

    /// The number of accounts.
    pub fn account_count(&self) -> (n: usize)
        ensures
            n == self@.accounts.len(),
    {
        self.accounts.len()
    }

    /// The number of sessions.
    pub fn session_count(&self) -> (n: usize)
        ensures
            n == self@.sessions.len(),
    {
        self.sessions.len()
    }

    /// The first account that the key selects.
    pub fn find_account(&self, key: &AccountKey) -> (found: Option<StudentData>)
        ensures
            found.deep_view() == self@.account(key@),
    {
        let ghost rows = self.accounts.deep_view();
        let ghost selects = |account: Account| key@.selects(account);
        let mut i: usize = 0;
        while i < self.accounts.len()
            invariant
                i <= self.accounts.len(),
                rows == self.accounts.deep_view(),
                selects == |account: Account| key@.selects(account),
                first_where(rows.take(i as int), selects) is None,
            decreases self.accounts.len() - i,
        {
            assert(rows.take(i + 1).drop_last() =~= rows.take(i as int));
            if key.selects(&self.accounts[i]) {
                proof {
                    found_in_prefix_is_found(rows, selects, i + 1);
                }
                return Some(self.accounts[i].clone());
            }
            i += 1;
        }
        assert(rows.take(i as int) =~= rows);
        None
    }

    /// The first session that the key selects.
    pub fn find_session(&self, key: &SessionKey) -> (found: Option<StudentSession>)
        ensures
            found.deep_view() == self@.session(key@),
    {
        let ghost rows = self.sessions.deep_view();
        let ghost selects = |session: Session| key@.selects(session);
        let mut i: usize = 0;
        while i < self.sessions.len()
            invariant
                i <= self.sessions.len(),
                rows == self.sessions.deep_view(),
                selects == |session: Session| key@.selects(session),
                first_where(rows.take(i as int), selects) is None,
            decreases self.sessions.len() - i,
        {
            assert(rows.take(i + 1).drop_last() =~= rows.take(i as int));
            if key.selects(&self.sessions[i]) {
                proof {
                    found_in_prefix_is_found(rows, selects, i + 1);
                }
                return Some(self.sessions[i].clone());
            }
            i += 1;
        }
        assert(rows.take(i as int) =~= rows);
        None
    }

    /// Writes a new account, unless a constraint forbids it.
    pub fn insert_account(&mut self, account: StudentData) -> (reply: Reply)
        ensures
            (final(self)@, reply@) == old(self)@.answer(QueryView::InsertAccount(account@)),
    {
        let same_identity = self.find_account(&AccountKey::Uuid(account.uuid));
        let same_name = self.find_account(
            &AccountKey::UsernameOrEmail {
                username: account.username.clone(),
                email: account.email.clone(),
            },
        );
        if same_identity.is_none() && same_name.is_none() {
            let ghost before = self.accounts.deep_view();
            self.accounts.push(account);
            assert(self.accounts.deep_view() =~= before.push(account@));
            Reply::Affected(1)
        } else {
            Reply::Failed(
                Failure {
                    message: "duplicate key value violates a unique constraint of users".to_owned(),
                    detail: "Conflict(\"users\")".to_owned(),
                },
            )
        }
    }

    /// Writes a new session, unless a constraint forbids it.
    pub fn insert_session(&mut self, session: StudentSession) -> (reply: Reply)
        ensures
            (final(self)@, reply@) == old(self)@.answer(QueryView::InsertSession(session@)),
    {
        let same_token = self.find_session(&SessionKey::Token(session.ssid.clone()));
        let owner = self.find_account(&AccountKey::Uuid(session.belongs_to));
        if same_token.is_none() && owner.is_some() {
            let ghost before = self.sessions.deep_view();
            self.sessions.push(session);
            assert(self.sessions.deep_view() =~= before.push(session@));
            Reply::Affected(1)
        } else {
            Reply::Failed(
                Failure {
                    message: "insert violates a constraint of user_sessions".to_owned(),
                    detail: "Conflict(\"user_sessions\")".to_owned(),
                },
            )
        }
    }

    /// Deletes every session that the key selects and counts them.
    pub fn delete_sessions(&mut self, key: &SessionKey) -> (reply: Reply)
        ensures
            (final(self)@, reply@) == old(self)@.answer(QueryView::DeleteSessions(key@)),
    {
        let ghost rows = self.sessions.deep_view();
        let ghost selects = |session: Session| key@.selects(session);
        let mut kept: Vec<StudentSession> = Vec::new();
        let mut i: usize = 0;
        assert(rows.take(0) =~= Seq::empty());
        assert(kept.deep_view() =~= without(rows.take(0), selects)) by {
            reveal(Seq::filter);
        }
        while i < self.sessions.len()
            invariant
                i <= self.sessions.len(),
                *self == *old(self),
                rows == self.sessions.deep_view(),
                selects == |session: Session| key@.selects(session),
                kept.deep_view() == without(rows.take(i as int), selects),
                kept.len() <= i,
            decreases self.sessions.len() - i,
        {
            let ghost so_far = kept.deep_view();
            if !key.selects(&self.sessions[i]) {
                kept.push(self.sessions[i].clone());
                assert(kept.deep_view() =~= so_far.push(rows[i as int]));
            }
            proof {
                assert(rows.take(i + 1) =~= rows.take(i as int).push(rows[i as int]));
                without_of_push(rows.take(i as int), rows[i as int], selects);
            }
            i += 1;
        }
        assert(rows.take(i as int) =~= rows);
        let removed = self.sessions.len() - kept.len();
        self.sessions = kept;
        Reply::Affected(removed as u64)
    }

    /// Carries a query out and gives the reply to it.
    pub fn answer(&mut self, query: Query) -> (reply: Reply)
        ensures
            (final(self)@, reply@) == old(self)@.answer(query@),
    {
        match query {
            Query::FindAccount(key) => Reply::Account(self.find_account(&key)),
            Query::InsertAccount(account) => self.insert_account(account),
            Query::FindSession(key) => Reply::Session(self.find_session(&key)),
            Query::InsertSession(session) => self.insert_session(session),
            Query::DeleteSessions(key) => self.delete_sessions(&key),
        }
    }
}

} // verus!
