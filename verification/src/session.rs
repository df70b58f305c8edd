//! The session authority: login, the check of a session token, and logout.
use vstd::prelude::*;
use vstd::string::StringExecFns;
use vstd::utf8::encode_utf8;

use crate::auth::{
    DropSession, EnsureSession, EnsureSessionView, LoggedInStudent, LoginStudent, LoginStudentView,
    SessionBasedResponse, SessionBasedResponseView, SessionDropped,
};
use crate::err::{
    breaks, fine, nothing, proceeds, refused, Error, ErrorView, InternalKind, Outcome, Payload,
    PayloadView,
};
use crate::hasher::{verified, verify};
use crate::identity::{hyphenated, identity_text};
use crate::models::{optional_text, Session, StudentSession};
use crate::step::{
    database_error, database_failure, unexpected_reply, unexpected_reply_error, Step, StepView,
};
use crate::store::{
    session_conflict, AccountKey, AccountKeyView, Query, QueryView, Reply, ReplyView, SessionKey,
    SessionKeyView, Store, Tables,
};
use crate::time::{now, Timestamp};
use crate::token::{fresh_seed, session_token, token_text};

verus! {

/// What a check of a session token found.
#[derive(Debug, Clone, Copy, PartialEq, Eq, Structural)]
pub enum AuthResult {
    Success,
    SessionExpired,
    InvalidSession,
}

impl AuthResult {
    /// The name under which the finding is reported to a client.
    pub open spec fn label(self) -> Seq<char> {
        match self {
            AuthResult::Success => "Success"@,
            AuthResult::SessionExpired => "SessionExpired"@,
            AuthResult::InvalidSession => "InvalidSession"@,
        }
    }

    /// The name under which the finding is reported to a client.
    pub fn as_str(&self) -> (name: &'static str)
        ensures
            name@ == self.label(),
    {
        match self {
            AuthResult::Success => "Success",
            AuthResult::SessionExpired => "SessionExpired",
            AuthResult::InvalidSession => "InvalidSession",
        }
    }
}

/// What a check of a session token comes to, or why it could not be made.
pub type Verdict = Result<AuthResult, Error>;

/// A [`Verdict`] as contracts see it.
pub type VerdictView = Result<AuthResult, ErrorView>;

impl Outcome for Result<AuthResult, Error> {
    type Seen = Result<AuthResult, ErrorView>;

    open spec fn seen(&self) -> Self::Seen {
        match self {
            Ok(found) => Ok(*found),
            Err(e) => Err(e@),
        }
    }
}

/// The verdict of a check that could be made.
pub open spec fn found(result: AuthResult) -> VerdictView {
    Ok(result)
}

/// The check of a session token, waiting for the store.
#[derive(Debug)]
pub enum Validation {
    /// The session with the token was asked for.
    AwaitSession { ssid: String },
    /// The session had expired and its deletion was asked for.
    AwaitPurge,
}

/// A [`Validation`] as contracts see it.
pub enum ValidationView {
    AwaitSession { ssid: Seq<char> },
    AwaitPurge,
}

impl View for Validation {
    type V = ValidationView;

    open spec fn view(&self) -> ValidationView {
        match self {
            Validation::AwaitSession { ssid } => ValidationView::AwaitSession { ssid: ssid@ },
            Validation::AwaitPurge => ValidationView::AwaitPurge,
        }
    }
}

impl ValidationView {
    /// How many queries the check may still put to the store, the one it
    /// waits on included.
    pub open spec fn queries_left(self) -> nat {
        match self {
            ValidationView::AwaitSession { .. } => 2,
            ValidationView::AwaitPurge => 1,
        }
    }

    /// The first step of the check of a token that may be absent.
    pub open spec fn start(session_id: Option<Seq<char>>) -> StepView<ValidationView, VerdictView> {
        match session_id {
            None => StepView::Done(Ok(AuthResult::InvalidSession)),
            Some(ssid) => if ssid.len() == 0 {
                StepView::Done(Ok(AuthResult::InvalidSession))
            } else {
                StepView::Ask(
                    QueryView::FindSession(SessionKeyView::Token(ssid)),
                    ValidationView::AwaitSession { ssid },
                )
            },
        }
    }

    /// The step that follows a reply which arrives at the instant `now`.
    pub open spec fn next(self, reply: ReplyView, now: Timestamp) -> StepView<
        ValidationView,
        VerdictView,
    > {
        match self {
            ValidationView::AwaitSession { ssid } => match reply {
                ReplyView::Session(None) => StepView::Done(Ok(AuthResult::InvalidSession)),
                ReplyView::Session(Some(session)) => if now.is_after(session.expires_at) {
                    StepView::Ask(
                        QueryView::DeleteSessions(SessionKeyView::Token(ssid)),
                        ValidationView::AwaitPurge,
                    )
                } else {
                    StepView::Done(Ok(AuthResult::Success))
                },
                ReplyView::Failed(failure) => StepView::Done(
                    Err(database_failure(failure.message)),
                ),
                _ => StepView::Done(Err(unexpected_reply())),
            },
            ValidationView::AwaitPurge => match reply {
                ReplyView::Affected(_) => StepView::Done(Ok(AuthResult::InvalidSession)),
                ReplyView::Failed(failure) => StepView::Done(
                    Err(database_failure(failure.message)),
                ),
                _ => StepView::Done(Err(unexpected_reply())),
            },
        }
    }
}

impl Validation {
    /// Begins the check of a token that may be absent.
    ///
    /// An absent or empty token is invalid without a look at the store.
    pub fn start(session_id: Option<String>) -> (step: Step<Validation, Verdict>)
        ensures
            step@ == ValidationView::start(optional_text(session_id)),
    {
        match session_id {
            None => Step::Done(Ok(AuthResult::InvalidSession)),
            Some(ssid) => {
                if ssid.as_str().is_empty() {
                    Step::Done(Ok(AuthResult::InvalidSession))
                } else {
                    Step::Ask(
                        Query::FindSession(SessionKey::Token(ssid.clone())),
                        Validation::AwaitSession { ssid },
                    )
                }
            },
        }
    }

    /// Takes the reply to the last query, which arrived at the instant
    /// `now`.
    ///
    /// A session that has expired is not reported as such: its deletion is
    /// asked for, and the token is then invalid.
    pub fn resume_at(self, reply: Reply, now: Timestamp) -> (step: Step<Validation, Verdict>)
        ensures
            step@ == self@.next(reply@, now),
    {
        match self {
            Validation::AwaitSession { ssid } => match reply {
                Reply::Session(None) => Step::Done(Ok(AuthResult::InvalidSession)),
                Reply::Session(Some(session)) => {
                    if now.after(&session.expires_at) {
                        Step::Ask(
                            Query::DeleteSessions(SessionKey::Token(ssid)),
                            Validation::AwaitPurge,
                        )
                    } else {
                        Step::Done(Ok(AuthResult::Success))
                    }
                },
                Reply::Failed(failure) => Step::Done(Err(database_error(failure.message))),
                _ => Step::Done(Err(unexpected_reply_error())),
            },
            Validation::AwaitPurge => match reply {
                Reply::Affected(_) => Step::Done(Ok(AuthResult::InvalidSession)),
                Reply::Failed(failure) => Step::Done(Err(database_error(failure.message))),
                _ => Step::Done(Err(unexpected_reply_error())),
            },
        }
    }

    /// Takes the reply to the last query and reads the clock.
    pub fn resume(self, reply: Reply) -> (step: Step<Validation, Verdict>)
        ensures
            exists|now: Timestamp| step@ == #[trigger] self@.next(reply@, now),
    {
        let at = now();
        let step = self.resume_at(reply, at);
        assert(step@ == self@.next(reply@, at));
        step
    }
}

/// What the check of a token makes of the store at the instant `now`, and
/// what it finds.
///
/// A token that is absent, empty or unknown is invalid. A session whose
/// expiry lies before `now` is deleted and its token is invalid. Any other
/// session makes the token good.
pub open spec fn validated(db: Tables, session_id: Option<Seq<char>>, now: Timestamp) -> (
    Tables,
    VerdictView,
) {
    match session_id {
        None => (db, Ok(AuthResult::InvalidSession)),
        Some(ssid) => if ssid.len() == 0 {
            (db, Ok(AuthResult::InvalidSession))
        } else {
            match db.session(SessionKeyView::Token(ssid)) {
                None => (db, Ok(AuthResult::InvalidSession)),
                Some(session) => if now.is_after(session.expires_at) {
                    (
                        db.without_sessions(SessionKeyView::Token(ssid)),
                        Ok(AuthResult::InvalidSession),
                    )
                } else {
                    (db, Ok(AuthResult::Success))
                },
            }
        },
    }
}

/// Checks a session token against the store at the instant `now`.
pub fn ensure_authenticated_at(session_id: Option<String>, store: &mut Store, now: Timestamp) -> (found:
    Verdict)
    ensures
        (final(store)@, found.seen()) == validated(old(store)@, optional_text(session_id), now),
{
    let (asked, waiting) = match Validation::start(session_id) {
        Step::Done(found) => { return found; },
        Step::Ask(query, state) => (query, state),
    };
    let reply = store.answer(asked);
    let (asked, waiting) = match waiting.resume_at(reply, now) {
        Step::Done(found) => { return found; },
        Step::Ask(query, state) => (query, state),
    };
    let reply = store.answer(asked);
    match waiting.resume_at(reply, now) {
        Step::Done(found) => found,
        Step::Ask(_, _) => Err(unexpected_reply_error()),
    }
}

/// Checks a session token against the store and the clock.
pub fn ensure_authenticated(session_id: Option<String>, store: &mut Store) -> (found: Verdict)
    ensures
        exists|now: Timestamp|
            (final(store)@, found.seen()) == #[trigger] validated(
                old(store)@,
                optional_text(session_id),
                now,
            ),
{
    let at = now();
    let ghost before = store@;
    let found = ensure_authenticated_at(session_id, store, at);
    assert((store@, found.seen()) == validated(before, optional_text(session_id), at));
    found
}

/// The refusal of a login without a password.
pub open spec fn empty_password() -> ErrorView {
    ErrorView::InvalidPayload { message: "`password` parameter was empty"@ }
}

/// The refusal of a login to an identity that no account bears.
pub open spec fn unknown_identity(uuid: u128) -> ErrorView {
    ErrorView::UserDoesNotExist {
        message: "User with uuid `"@ + hyphenated(uuid) + "` does not exist!"@,
    }
}

/// The refusal of a login with a password that is not the account's.
pub open spec fn password_mismatch() -> ErrorView {
    ErrorView::AuthenticationFailure { message: "Passwords do not match!"@ }
}

/// The failure of a login whose session the store accepted without writing
/// a row.
pub open spec fn session_not_saved() -> ErrorView {
    ErrorView::InternalError {
        kind: InternalKind::DatabaseError,
        message: "Could not update session ids!"@,
    }
}

/// What a login hands to the transport.
pub type LoggedIn = Payload<LoggedInStudent>;

/// A [`LoggedIn`] as contracts see it.
pub type LoggedInView = PayloadView<Session>;

/// The session that is issued at `now` to `owner` from `seed`.
pub open spec fn issued(owner: u128, now: Timestamp, seed: Seq<u8>) -> Session {
    Session { ssid: token_text(seed), belongs_to: owner, expires_at: now.expiry() }
}

/// A login, waiting for the store.
#[derive(Debug)]
pub enum Login {
    /// The account was asked for.
    AwaitAccount { login: LoginStudent },
    /// The password was right and a session of the owner was asked for.
    AwaitSession { owner: u128 },
    /// A new session was handed to the store.
    AwaitInsert { session: StudentSession },
}

/// A [`Login`] as contracts see it.
pub enum LoginView {
    AwaitAccount { login: LoginStudentView },
    AwaitSession { owner: u128 },
    AwaitInsert { session: Session },
}

impl View for Login {
    type V = LoginView;

    open spec fn view(&self) -> LoginView {
        match self {
            Login::AwaitAccount { login } => LoginView::AwaitAccount { login: login@ },
            Login::AwaitSession { owner } => LoginView::AwaitSession { owner: *owner },
            Login::AwaitInsert { session } => LoginView::AwaitInsert { session: session@ },
        }
    }
}

impl LoginView {
    /// How many queries the login may still put to the store, the one it
    /// waits on included.
    pub open spec fn queries_left(self) -> nat {
        match self {
            LoginView::AwaitAccount { .. } => 3,
            LoginView::AwaitSession { .. } => 2,
            LoginView::AwaitInsert { .. } => 1,
        }
    }

    /// The first step of a login.
    pub open spec fn start(login: LoginStudentView) -> StepView<LoginView, LoggedInView> {
        if login.password.len() == 0 {
            StepView::Done(Ok(nothing(empty_password())))
        } else {
            StepView::Ask(
                QueryView::FindAccount(AccountKeyView::Uuid(login.uuid)),
                LoginView::AwaitAccount { login },
            )
        }
    }

    /// The step that follows a reply, where the clock shows `now` and
    /// `seed` was drawn for the token of a new session.
    pub open spec fn next(self, reply: ReplyView, now: Timestamp, seed: Seq<u8>) -> StepView<
        LoginView,
        LoggedInView,
    > {
        match self {
            LoginView::AwaitAccount { login } => match reply {
                ReplyView::Account(None) => StepView::Done(
                    Ok(nothing(unknown_identity(login.uuid))),
                ),
                ReplyView::Account(Some(account)) => match verified(
                    encode_utf8(login.password),
                    account.password_hash,
                ) {
                    Err(e) => StepView::Done(refused(e)),
                    Ok(accepted) => if accepted {
                        StepView::Ask(
                            QueryView::FindSession(SessionKeyView::Owner(login.uuid)),
                            LoginView::AwaitSession { owner: account.uuid },
                        )
                    } else {
                        StepView::Done(Ok(nothing(password_mismatch())))
                    },
                },
                ReplyView::Failed(failure) => StepView::Done(refused(database_failure(failure.message))),
                _ => StepView::Done(refused(unexpected_reply())),
            },
            LoginView::AwaitSession { owner } => match reply {
                ReplyView::Session(Some(existing)) => StepView::Done(Ok(fine(existing))),
                ReplyView::Session(None) => StepView::Ask(
                    QueryView::InsertSession(issued(owner, now, seed)),
                    LoginView::AwaitInsert { session: issued(owner, now, seed) },
                ),
                ReplyView::Failed(failure) => StepView::Done(refused(database_failure(failure.message))),
                _ => StepView::Done(refused(unexpected_reply())),
            },
            LoginView::AwaitInsert { session } => match reply {
                ReplyView::Affected(rows) => if rows < 1 {
                    StepView::Done(Ok(nothing(session_not_saved())))
                } else {
                    StepView::Done(Ok(fine(session)))
                },
                ReplyView::Failed(failure) => StepView::Done(refused(database_failure(failure.message))),
                _ => StepView::Done(refused(unexpected_reply())),
            },
        }
    }
}

impl Login {
    /// Begins a login. An empty password is refused without a look at the
    /// store.
    pub fn start(login: LoginStudent) -> (step: Step<Login, LoggedIn>)
        ensures
            step@ == LoginView::start(login@),
    {
        if login.password.as_str().is_empty() {
            Step::Done(
                breaks(
                    Error::InvalidPayload { message: "`password` parameter was empty".to_owned() },
                ),
            )
        } else {
            Step::Ask(
                Query::FindAccount(AccountKey::Uuid(login.uuid)),
                Login::AwaitAccount { login },
            )
        }
    }

    /// Takes the reply to the last query. Where the reply calls for a new
    /// session, the session is issued at `now` with the token that `seed`
    /// gives.
    ///
    /// A session that the owner has already is handed back as it is,
    /// whether it has expired or not.
    pub fn resume_at(self, reply: Reply, now: Timestamp, seed: &[u8; 32]) -> (step: Step<
        Login,
        LoggedIn,
    >)
        requires
            self@ is AwaitSession ==> now.can_issue(),
        ensures
            step@ == self@.next(reply@, now, seed@),
    {
        match self {
            Login::AwaitAccount { login } => match reply {
                Reply::Account(None) => Step::Done(
                    breaks(
                        Error::UserDoesNotExist {
                            message: "User with uuid `".to_owned().concat(
                                identity_text(login.uuid).as_str(),
                            ).concat("` does not exist!"),
                        },
                    ),
                ),
                Reply::Account(Some(account)) => match verify(
                    login.password.as_str().as_bytes(),
                    account.password_hash.as_str(),
                ) {
                    Err(e) => Step::Done(breaks(e)),
                    Ok(accepted) => {
                        if accepted {
                            Step::Ask(
                                Query::FindSession(SessionKey::Owner(login.uuid)),
                                Login::AwaitSession { owner: account.uuid },
                            )
                        } else {
                            Step::Done(
                                breaks(
                                    Error::AuthenticationFailure {
                                        message: "Passwords do not match!".to_owned(),
                                    },
                                ),
                            )
                        }
                    },
                },
                Reply::Failed(failure) => Step::Done(breaks(database_error(failure.message))),
                _ => Step::Done(breaks(unexpected_reply_error())),
            },
            Login::AwaitSession { owner } => match reply {
                Reply::Session(Some(existing)) => Step::Done(
                    proceeds(
                        LoggedInStudent {
                            session_id: existing.ssid,
                            student_id: existing.belongs_to,
                            expires_at: existing.expires_at,
                        },
                    ),
                ),
                Reply::Session(None) => {
                    let session = StudentSession {
                        ssid: session_token(seed),
                        belongs_to: owner,
                        expires_at: now.expires(),
                    };
                    Step::Ask(Query::InsertSession(session.clone()), Login::AwaitInsert { session })
                },
                Reply::Failed(failure) => Step::Done(breaks(database_error(failure.message))),
                _ => Step::Done(breaks(unexpected_reply_error())),
            },
            Login::AwaitInsert { session } => match reply {
                Reply::Affected(rows) => {
                    if rows < 1 {
                        Step::Done(
                            breaks(
                                Error::InternalError {
                                    kind: InternalKind::DatabaseError,
                                    message: "Could not update session ids!".to_owned(),
                                },
                            ),
                        )
                    } else {
                        Step::Done(
                            proceeds(
                                LoggedInStudent {
                                    session_id: session.ssid,
                                    student_id: session.belongs_to,
                                    expires_at: session.expires_at,
                                },
                            ),
                        )
                    }
                },
                Reply::Failed(failure) => Step::Done(breaks(database_error(failure.message))),
                _ => Step::Done(breaks(unexpected_reply_error())),
            },
        }
    }

    /// Takes the reply to the last query. Where the login waits to learn of
    /// a session of the owner, the clock is read and a seed is drawn. In the
    /// other states nothing is read or drawn.
    pub fn resume(self, reply: Reply) -> (step: Step<Login, LoggedIn>)
        ensures
            self@ is AwaitSession ==> exists|now: Timestamp, seed: Seq<u8>|
                now.can_issue() && seed.len() == 32 && step@ == #[trigger] self@.next(
                    reply@,
                    now,
                    seed,
                ),
            !(self@ is AwaitSession) ==> forall|now: Timestamp, seed: Seq<u8>|
                step@ == #[trigger] self@.next(reply@, now, seed),
    {
        let ghost state = self@;
        match self {
            Login::AwaitSession { .. } => {
                let at = now();
                let seed = fresh_seed();
                let step = self.resume_at(reply, at, &seed);
                assert(at.can_issue() && seed@.len() == 32 && step@ == state.next(
                    reply@,
                    at,
                    seed@,
                ));
                step
            },
            _ => self.resume_at(reply, Timestamp { micros: 0 }, &[0u8; 32]),
        }
    }
}

/// What a login makes of the store, and what it reports, where the clock
/// shows `now` and `seed` was drawn for the token of a new session.
///
/// A login without a password, to an unknown identity or with a password
/// that the account's record does not accept is refused. The first session
/// that the account has already is handed back as it is. Otherwise a
/// session is written that expires two days after `now`, unless its token
/// is taken.
pub open spec fn logged_in(db: Tables, login: LoginStudentView, now: Timestamp, seed: Seq<u8>) -> (
    Tables,
    LoggedInView,
) {
    if login.password.len() == 0 {
        (db, Ok(nothing(empty_password())))
    } else {
        match db.account(AccountKeyView::Uuid(login.uuid)) {
            None => (db, Ok(nothing(unknown_identity(login.uuid)))),
            Some(account) => match verified(encode_utf8(login.password), account.password_hash) {
                Err(e) => (db, refused(e)),
                Ok(accepted) => if !accepted {
                    (db, Ok(nothing(password_mismatch())))
                } else {
                    match db.session(SessionKeyView::Owner(login.uuid)) {
                        Some(existing) => (db, Ok(fine(existing))),
                        None => {
                            let session = issued(account.uuid, now, seed);
                            if db.admits_session(session) {
                                (db.with_session(session), Ok(fine(session)))
                            } else {
                                (db, refused(database_failure(session_conflict().message)))
                            }
                        },
                    }
                },
            },
        }
    }
}

/// Logs an account in against the store, at the instant `now` and with
/// `seed` for the token of a new session.
pub fn login_student_at(login: LoginStudent, store: &mut Store, now: Timestamp, seed: &[u8; 32]) -> (session:
    LoggedIn)
    requires
        now.can_issue(),
    ensures
        (final(store)@, session.seen()) == logged_in(old(store)@, login@, now, seed@),
{
    let (asked, waiting) = match Login::start(login) {
        Step::Done(session) => { return session; },
        Step::Ask(query, state) => (query, state),
    };
    let reply = store.answer(asked);
    let (asked, waiting) = match waiting.resume_at(reply, now, seed) {
        Step::Done(session) => { return session; },
        Step::Ask(query, state) => (query, state),
    };
    let reply = store.answer(asked);
    let (asked, waiting) = match waiting.resume_at(reply, now, seed) {
        Step::Done(session) => { return session; },
        Step::Ask(query, state) => (query, state),
    };
    let reply = store.answer(asked);
    match waiting.resume_at(reply, now, seed) {
        Step::Done(session) => session,
        Step::Ask(_, _) => breaks(unexpected_reply_error()),
    }
}

/// Logs an account in against the store, the clock and a fresh seed.
pub fn login_student(login: LoginStudent, store: &mut Store) -> (session: LoggedIn)
    ensures
        exists|now: Timestamp, seed: Seq<u8>|
            now.can_issue() && seed.len() == 32 && (final(store)@, session.seen())
                == #[trigger] logged_in(old(store)@, login@, now, seed),
{
    let ghost before = store@;
    let at = now();
    let seed = fresh_seed();
    let session = login_student_at(login, store, at, &seed);
    assert((store@, session.seen()) == logged_in(before, login@, at, seed@));
    session
}

/// What a logout hands to the transport.
pub type Dropped = Payload<SessionBasedResponse<SessionDropped>>;

/// A [`Dropped`] as contracts see it.
pub type DroppedView = PayloadView<SessionBasedResponseView<SessionDropped>>;

/// A logout, waiting for the store.
#[derive(Debug)]
pub enum Logout {
    /// The session token is being checked.
    Checking { check: Validation, ssid: String, uuid: u128 },
    /// The check let the request through and the deletion was asked for.
    AwaitDelete { uuid: u128 },
}

/// A [`Logout`] as contracts see it.
pub enum LogoutView {
    Checking { check: ValidationView, ssid: Seq<char>, uuid: u128 },
    AwaitDelete { uuid: u128 },
}

impl View for Logout {
    type V = LogoutView;

    open spec fn view(&self) -> LogoutView {
        match self {
            Logout::Checking { check, ssid, uuid } => LogoutView::Checking {
                check: check@,
                ssid: ssid@,
                uuid: *uuid,
            },
            Logout::AwaitDelete { uuid } => LogoutView::AwaitDelete { uuid: *uuid },
        }
    }
}

impl LogoutView {
    /// How many queries the logout may still put to the store, the one it
    /// waits on included.
    pub open spec fn queries_left(self) -> nat {
        match self {
            LogoutView::Checking { check, .. } => check.queries_left() + 1,
            LogoutView::AwaitDelete { .. } => 1,
        }
    }

    /// The step of a logout that answers a step of the check of its token.
    pub open spec fn after_check(
        checked: StepView<ValidationView, VerdictView>,
        ssid: Seq<char>,
        uuid: u128,
    ) -> StepView<LogoutView, DroppedView> {
        match checked {
            StepView::Ask(query, check) => StepView::Ask(
                query,
                LogoutView::Checking { check, ssid, uuid },
            ),
            StepView::Done(Err(e)) => StepView::Done(refused(e)),
            StepView::Done(Ok(found)) => if found == AuthResult::Success {
                StepView::Ask(
                    QueryView::DeleteSessions(
                        SessionKeyView::TokenAndOwner { ssid, belongs_to: uuid },
                    ),
                    LogoutView::AwaitDelete { uuid },
                )
            } else {
                StepView::Done(
                    Ok(fine(SessionBasedResponseView { auth_result: found, value: None })),
                )
            },
        }
    }

    /// The first step of a logout.
    pub open spec fn start(request: EnsureSessionView<DropSession>) -> StepView<
        LogoutView,
        DroppedView,
    > {
        Self::after_check(
            ValidationView::start(Some(request.ssid)),
            request.ssid,
            request.value.uuid,
        )
    }

    /// The step that follows a reply which arrives at the instant `now`.
    pub open spec fn next(self, reply: ReplyView, now: Timestamp) -> StepView<
        LogoutView,
        DroppedView,
    > {
        match self {
            LogoutView::Checking { check, ssid, uuid } => Self::after_check(
                check.next(reply, now),
                ssid,
                uuid,
            ),
            LogoutView::AwaitDelete { uuid } => match reply {
                ReplyView::Affected(rows) => StepView::Done(
                    Ok(
                        fine(
                            SessionBasedResponseView {
                                auth_result: AuthResult::Success,
                                value: Some(
                                    SessionDropped { student_id: uuid, drop_success: rows >= 1 },
                                ),
                            },
                        ),
                    ),
                ),
                ReplyView::Failed(failure) => StepView::Done(refused(database_failure(failure.message))),
                _ => StepView::Done(refused(unexpected_reply())),
            },
        }
    }
}

impl Logout {
    /// Continues a logout with a step of the check of its token.
    fn after_check(checked: Step<Validation, Verdict>, ssid: String, uuid: u128) -> (step: Step<
        Logout,
        Dropped,
    >)
        ensures
            step@ == LogoutView::after_check(checked@, ssid@, uuid),
    {
        match checked {
            Step::Ask(query, check) => Step::Ask(query, Logout::Checking { check, ssid, uuid }),
            Step::Done(Err(e)) => Step::Done(breaks(e)),
            Step::Done(Ok(found)) => {
                if found == AuthResult::Success {
                    Step::Ask(
                        Query::DeleteSessions(SessionKey::TokenAndOwner { ssid, belongs_to: uuid }),
                        Logout::AwaitDelete { uuid },
                    )
                } else {
                    Step::Done(
                        proceeds(
                            SessionBasedResponse::<SessionDropped> {
                                auth_result: found,
                                value: None,
                            },
                        ),
                    )
                }
            },
        }
    }

    /// Begins a logout with the check of the session token.
    pub fn start(request: EnsureSession<DropSession>) -> (step: Step<Logout, Dropped>)
        ensures
            step@ == LogoutView::start(request@),
    {
        let checked = Validation::start(Some(request.ssid.clone()));
        Logout::after_check(checked, request.ssid, request.value.uuid)
    }

    /// Takes the reply to the last query, which arrived at the instant
    /// `now`.
    ///
    /// Only a token that the check found good leads to a deletion, and the
    /// deletion is of the session that bears the token and belongs to the
    /// account named in the request.
    pub fn resume_at(self, reply: Reply, now: Timestamp) -> (step: Step<Logout, Dropped>)
        ensures
            step@ == self@.next(reply@, now),
    {
        match self {
            Logout::Checking { check, ssid, uuid } => Logout::after_check(
                check.resume_at(reply, now),
                ssid,
                uuid,
            ),
            Logout::AwaitDelete { uuid } => match reply {
                Reply::Affected(rows) => Step::Done(
                    proceeds(
                        SessionBasedResponse {
                            auth_result: AuthResult::Success,
                            value: Some(
                                SessionDropped { student_id: uuid, drop_success: rows >= 1 },
                            ),
                        },
                    ),
                ),
                Reply::Failed(failure) => Step::Done(breaks(database_error(failure.message))),
                _ => Step::Done(breaks(unexpected_reply_error())),
            },
        }
    }

    /// Takes the reply to the last query and reads the clock.
    pub fn resume(self, reply: Reply) -> (step: Step<Logout, Dropped>)
        ensures
            exists|now: Timestamp| step@ == #[trigger] self@.next(reply@, now),
    {
        let at = now();
        let step = self.resume_at(reply, at);
        assert(step@ == self@.next(reply@, at));
        step
    }
}

/// What a logout makes of the store at the instant `now`, and what it
/// reports.
///
/// The token is checked first, which deletes its session if that has
/// expired. Where the check finds the token good, every session is deleted
/// that bears the token and belongs to `uuid`, and the report says whether
/// there was one.
pub open spec fn dropped(db: Tables, request: EnsureSessionView<DropSession>, now: Timestamp) -> (
    Tables,
    DroppedView,
) {
    let (checked, verdict) = validated(db, Some(request.ssid), now);
    let key = SessionKeyView::TokenAndOwner { ssid: request.ssid, belongs_to: request.value.uuid };
    match verdict {
        Err(e) => (checked, refused(e)),
        Ok(found) => if found == AuthResult::Success {
            (
                checked.without_sessions(key),
                Ok(
                    fine(
                        SessionBasedResponseView {
                            auth_result: AuthResult::Success,
                            value: Some(
                                SessionDropped {
                                    student_id: request.value.uuid,
                                    drop_success: checked.selected_sessions(key) as u64 >= 1,
                                },
                            ),
                        },
                    ),
                ),
            )
        } else {
            (checked, Ok(fine(SessionBasedResponseView { auth_result: found, value: None })))
        },
    }
}

/// Logs an account out against the store at the instant `now`.
pub fn drop_session_at(request: EnsureSession<DropSession>, store: &mut Store, now: Timestamp) -> (report:
    Dropped)
    ensures
        (final(store)@, report.seen()) == dropped(old(store)@, request@, now),
{
    let (asked, waiting) = match Logout::start(request) {
        Step::Done(report) => { return report; },
        Step::Ask(query, state) => (query, state),
    };
    let reply = store.answer(asked);
    let (asked, waiting) = match waiting.resume_at(reply, now) {
        Step::Done(report) => { return report; },
        Step::Ask(query, state) => (query, state),
    };
    let reply = store.answer(asked);
    let (asked, waiting) = match waiting.resume_at(reply, now) {
        Step::Done(report) => { return report; },
        Step::Ask(query, state) => (query, state),
    };
    let reply = store.answer(asked);
    match waiting.resume_at(reply, now) {
        Step::Done(report) => report,
        Step::Ask(_, _) => breaks(unexpected_reply_error()),
    }
}

/// Logs an account out against the store and the clock.
pub fn drop_session(request: EnsureSession<DropSession>, store: &mut Store) -> (report: Dropped)
    ensures
        exists|now: Timestamp|
            (final(store)@, report.seen()) == #[trigger] dropped(old(store)@, request@, now),
{
    let ghost before = store@;
    let at = now();
    let report = drop_session_at(request, store, at);
    assert((store@, report.seen()) == dropped(before, request@, at));
    report
}

} // verus!
