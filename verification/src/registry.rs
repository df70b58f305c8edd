//! The account registry: registration and the lookup of an identity by
//! username.
use vstd::prelude::*;
use vstd::string::StringExecFns;
use vstd::utf8::encode_utf8;

use crate::auth::{CreateStudent, CreateStudentView, CreatedStudent};
use crate::err::{
    breaks, fine, nothing, proceeds, refused, Error, ErrorView, InternalKind, Outcome, Payload,
    PayloadView,
};
use crate::hasher::{fresh_salt, hash, hashed, usable_salt};
use crate::identity::fresh_identity;
use crate::models::{Account, StudentData};
use crate::step::{
    database_error, database_failure, unexpected_reply, unexpected_reply_error, Step, StepView,
};
use crate::store::{
    account_conflict, AccountKey, AccountKeyView, Query, QueryView, Reply, ReplyView, Store, Tables,
};
use crate::time::{now, Timestamp};

verus! {

/// The refusal of a lookup without a username.
pub open spec fn empty_username() -> ErrorView {
    ErrorView::InvalidPayload { message: "`username` parameter was empty"@ }
}

/// The refusal of a lookup of a username that no account bears.
pub open spec fn unknown_username(username: Seq<char>) -> ErrorView {
    ErrorView::UserDoesNotExist {
        message: "User with name `"@ + username + "` does not exist!"@,
    }
}

/// The refusal of a registration without a password.
pub open spec fn missing_password() -> ErrorView {
    ErrorView::MissingCredentials { message: "Provided password was empty!"@ }
}

/// The refusal of a registration whose username or email is taken.
pub open spec fn user_exists() -> ErrorView {
    ErrorView::UserAlreadyExists {
        message: "User with provided email/username already exists!"@,
    }
}

/// The failure of a registration that the store accepted without writing a
/// row.
pub open spec fn account_not_saved() -> ErrorView {
    ErrorView::InternalError {
        kind: InternalKind::DatabaseError,
        message: "Could not save data to database!"@,
    }
}

/// What a registration or a lookup hands to the transport.
pub type Created = Payload<CreatedStudent>;

/// A [`Created`] as contracts see it.
pub type CreatedView = PayloadView<CreatedStudent>;

/// The lookup of an identity, waiting for the store.
#[derive(Debug)]
pub enum Lookup {
    /// The account with the username was asked for.
    AwaitAccount { username: String },
}

/// A [`Lookup`] as contracts see it.
pub enum LookupView {
    AwaitAccount { username: Seq<char> },
}

impl View for Lookup {
    type V = LookupView;

    open spec fn view(&self) -> LookupView {
        match self {
            Lookup::AwaitAccount { username } => LookupView::AwaitAccount { username: username@ },
        }
    }
}

impl LookupView {
    /// The first step of the lookup of a username.
    pub open spec fn start(username: Seq<char>) -> StepView<LookupView, CreatedView> {
        if username.len() == 0 {
            StepView::Done(Ok(nothing(empty_username())))
        } else {
            StepView::Ask(
                QueryView::FindAccount(AccountKeyView::Username(username)),
                LookupView::AwaitAccount { username },
            )
        }
    }

    /// The step that follows a reply.
    pub open spec fn next(self, reply: ReplyView) -> StepView<LookupView, CreatedView> {
        match self {
            LookupView::AwaitAccount { username } => match reply {
                ReplyView::Account(Some(account)) => StepView::Done(
                    Ok(fine(CreatedStudent { student_id: account.uuid })),
                ),
                ReplyView::Account(None) => StepView::Done(Ok(nothing(unknown_username(username)))),
                ReplyView::Failed(failure) => StepView::Done(refused(database_failure(failure.message))),
                _ => StepView::Done(refused(unexpected_reply())),
            },
        }
    }
}

impl Lookup {
    /// Begins the lookup of a username. An empty username is refused
    /// without a look at the store.
    pub fn start(username: String) -> (step: Step<Lookup, Created>)
        ensures
            step@ == LookupView::start(username@),
    {
        if username.as_str().is_empty() {
            Step::Done(
                breaks(
                    Error::InvalidPayload { message: "`username` parameter was empty".to_owned() },
                ),
            )
        } else {
            Step::Ask(
                Query::FindAccount(AccountKey::Username(username.clone())),
                Lookup::AwaitAccount { username },
            )
        }
    }

    /// Takes the reply to the last query.
    pub fn resume(self, reply: Reply) -> (step: Step<Lookup, Created>)
        ensures
            step@ == self@.next(reply@),
    {
        match self {
            Lookup::AwaitAccount { username } => match reply {
                Reply::Account(Some(account)) => Step::Done(
                    proceeds(CreatedStudent { student_id: account.uuid }),
                ),
                Reply::Account(None) => Step::Done(
                    breaks(
                        Error::UserDoesNotExist {
                            message: "User with name `".to_owned().concat(username.as_str()).concat(
                                "` does not exist!",
                            ),
                        },
                    ),
                ),
                Reply::Failed(failure) => Step::Done(breaks(database_error(failure.message))),
                _ => Step::Done(breaks(unexpected_reply_error())),
            },
        }
    }
}

/// What the lookup of a username finds in the store: the identity of the
/// first account that bears the username.
pub open spec fn looked_up(db: Tables, username: Seq<char>) -> CreatedView {
    if username.len() == 0 {
        Ok(nothing(empty_username()))
    } else {
        match db.account(AccountKeyView::Username(username)) {
            Some(account) => Ok(fine(CreatedStudent { student_id: account.uuid })),
            None => Ok(nothing(unknown_username(username))),
        }
    }
}

/// Looks the identity of a username up in the store.
pub fn query_user_id(username: String, store: &mut Store) -> (found: Created)
    ensures
        final(store)@ == old(store)@,
        found.seen() == looked_up(old(store)@, username@),
{
    match Lookup::start(username) {
        Step::Done(found) => found,
        Step::Ask(query, waiting) => {
            let reply = store.answer(query);
            match waiting.resume(reply) {
                Step::Done(found) => found,
                Step::Ask(_, _) => breaks(unexpected_reply_error()),
            }
        },
    }
}

/// The account that a registration writes.
pub open spec fn new_account(
    student: CreateStudentView,
    uuid: u128,
    record: Seq<char>,
    now: Timestamp,
) -> Account {
    Account {
        uuid,
        username: student.username,
        name: student.name,
        surname: student.surname,
        patronymic: student.patronymic,
        email: student.email,
        password_hash: record,
        created_at: now,
    }
}

/// A registration, waiting for the store.
#[derive(Debug)]
pub enum Registration {
    /// An account with the username or the email was asked for.
    AwaitConflict { student: CreateStudent },
    /// The new account was handed to the store.
    AwaitInsert { uuid: u128 },
}

/// A [`Registration`] as contracts see it.
pub enum RegistrationView {
    AwaitConflict { student: CreateStudentView },
    AwaitInsert { uuid: u128 },
}

impl View for Registration {
    type V = RegistrationView;

    open spec fn view(&self) -> RegistrationView {
        match self {
            Registration::AwaitConflict { student } => RegistrationView::AwaitConflict {
                student: student@,
            },
            Registration::AwaitInsert { uuid } => RegistrationView::AwaitInsert { uuid: *uuid },
        }
    }
}

impl RegistrationView {
    /// How many queries the registration may still put to the store, the
    /// one it waits on included.
    pub open spec fn queries_left(self) -> nat {
        match self {
            RegistrationView::AwaitConflict { .. } => 2,
            RegistrationView::AwaitInsert { .. } => 1,
        }
    }

    /// The first step of a registration.
    pub open spec fn start(student: CreateStudentView) -> StepView<RegistrationView, CreatedView> {
        if student.password.len() == 0 {
            StepView::Done(Ok(nothing(missing_password())))
        } else {
            StepView::Ask(
                QueryView::FindAccount(
                    AccountKeyView::UsernameOrEmail {
                        username: student.username,
                        email: student.email,
                    },
                ),
                RegistrationView::AwaitConflict { student },
            )
        }
    }

    /// The step that follows a reply, where the identity `uuid` and the
    /// salt were drawn for the new account and the clock shows `now`.
    pub open spec fn next(
        self,
        reply: ReplyView,
        uuid: u128,
        salt: Seq<char>,
        now: Timestamp,
    ) -> StepView<RegistrationView, CreatedView> {
        match self {
            RegistrationView::AwaitConflict { student } => match reply {
                ReplyView::Account(Some(_)) => StepView::Done(Ok(nothing(user_exists()))),
                ReplyView::Account(None) => match hashed(encode_utf8(student.password), salt) {
                    Ok(record) => StepView::Ask(
                        QueryView::InsertAccount(new_account(student, uuid, record, now)),
                        RegistrationView::AwaitInsert { uuid },
                    ),
                    Err(e) => StepView::Done(refused(e)),
                },
                ReplyView::Failed(failure) => StepView::Done(refused(database_failure(failure.message))),
                _ => StepView::Done(refused(unexpected_reply())),
            },
            RegistrationView::AwaitInsert { uuid } => match reply {
                ReplyView::Affected(rows) => if rows < 1 {
                    StepView::Done(Ok(nothing(account_not_saved())))
                } else {
                    StepView::Done(Ok(fine(CreatedStudent { student_id: uuid })))
                },
                ReplyView::Failed(failure) => StepView::Done(refused(database_failure(failure.detail))),
                _ => StepView::Done(refused(unexpected_reply())),
            },
        }
    }
}

impl Registration {
    /// Begins a registration. An empty password is refused without a look
    /// at the store.
    pub fn start(student: CreateStudent) -> (step: Step<Registration, Created>)
        ensures
            step@ == RegistrationView::start(student@),
    {
        if student.password.as_str().is_empty() {
            Step::Done(
                breaks(
                    Error::MissingCredentials { message: "Provided password was empty!".to_owned() },
                ),
            )
        } else {
            Step::Ask(
                Query::FindAccount(
                    AccountKey::UsernameOrEmail {
                        username: student.username.clone(),
                        email: student.email.clone(),
                    },
                ),
                Registration::AwaitConflict { student },
            )
        }
    }

    /// Takes the reply to the last query. Where the reply calls for a new
    /// account, the account gets the identity `uuid`, its password is
    /// hashed under `salt`, and it is dated `now`.
    pub fn resume_with(self, reply: Reply, uuid: u128, salt: &str, now: Timestamp) -> (step: Step<
        Registration,
        Created,
    >)
        ensures
            step@ == self@.next(reply@, uuid, salt@, now),
    {
        match self {
            Registration::AwaitConflict { student } => match reply {
                Reply::Account(Some(_)) => Step::Done(
                    breaks(
                        Error::UserAlreadyExists {
                            message: "User with provided email/username already exists!".to_owned(),
                        },
                    ),
                ),
                Reply::Account(None) => match hash(student.password.as_str().as_bytes(), salt) {
                    Ok(record) => Step::Ask(
                        Query::InsertAccount(
                            StudentData {
                                uuid,
                                username: student.username,
                                name: student.name,
                                surname: student.surname,
                                patronymic: student.patronymic,
                                email: student.email,
                                password_hash: record,
                                created_at: now,
                            },
                        ),
                        Registration::AwaitInsert { uuid },
                    ),
                    Err(e) => Step::Done(breaks(e)),
                },
                Reply::Failed(failure) => Step::Done(breaks(database_error(failure.message))),
                _ => Step::Done(breaks(unexpected_reply_error())),
            },
            Registration::AwaitInsert { uuid } => match reply {
                Reply::Affected(rows) => {
                    if rows < 1 {
                        Step::Done(
                            breaks(
                                Error::InternalError {
                                    kind: InternalKind::DatabaseError,
                                    message: "Could not save data to database!".to_owned(),
                                },
                            ),
                        )
                    } else {
                        Step::Done(proceeds(CreatedStudent { student_id: uuid }))
                    }
                },
                Reply::Failed(failure) => Step::Done(breaks(database_error(failure.detail))),
                _ => Step::Done(breaks(unexpected_reply_error())),
            },
        }
    }

    /// Takes the reply to the last query. Where the registration waits to
    /// learn of a conflict, an identity and a salt are drawn and the clock
    /// is read; hashing under the salt that is drawn does not fail. Where it
    /// waits for the account to be written, nothing is drawn.
    pub fn resume(self, reply: Reply) -> (step: Step<Registration, Created>)
        ensures
            self@ is AwaitConflict ==> exists|uuid: u128, salt: Seq<char>, now: Timestamp|
                usable_salt(salt) && step@ == #[trigger] self@.next(reply@, uuid, salt, now),
            self@ is AwaitInsert ==> forall|uuid: u128, salt: Seq<char>, now: Timestamp|
                step@ == #[trigger] self@.next(reply@, uuid, salt, now),
    {
        let ghost state = self@;
        match self {
            Registration::AwaitConflict { .. } => {
                let uuid = fresh_identity();
                let salt = fresh_salt();
                let at = now();
                let step = self.resume_with(reply, uuid, salt.as_str(), at);
                assert(usable_salt(salt@) && step@ == state.next(reply@, uuid, salt@, at));
                step
            },
            Registration::AwaitInsert { .. } => self.resume_with(
                reply,
                0,
                "",
                Timestamp { micros: 0 },
            ),
        }
    }
}

/// What a registration makes of the store, and what it reports, where the
/// identity `uuid` and the salt were drawn for the new account and the
/// clock shows `now`.
///
/// A registration without a password is refused, and so is one whose
/// username or email an account bears already. The password is then hashed
/// and the account written, unless the identity is taken as well.
pub open spec fn registered(
    db: Tables,
    student: CreateStudentView,
    uuid: u128,
    salt: Seq<char>,
    now: Timestamp,
) -> (Tables, CreatedView) {
    if student.password.len() == 0 {
        (db, Ok(nothing(missing_password())))
    } else if db.account(
        AccountKeyView::UsernameOrEmail { username: student.username, email: student.email },
    ) is Some {
        (db, Ok(nothing(user_exists())))
    } else {
        match hashed(encode_utf8(student.password), salt) {
            Err(e) => (db, refused(e)),
            Ok(record) => {
                let account = new_account(student, uuid, record, now);
                if db.admits_account(account) {
                    (db.with_account(account), Ok(fine(CreatedStudent { student_id: uuid })))
                } else {
                    (db, refused(database_failure(account_conflict().detail)))
                }
            },
        }
    }
}

/// Registers an account in the store, with the identity `uuid`, the
/// password hashed under `salt`, and the date `now`.
pub fn register_student_with(
    student: CreateStudent,
    store: &mut Store,
    uuid: u128,
    salt: &str,
    now: Timestamp,
) -> (created: Created)
    ensures
        (final(store)@, created.seen()) == registered(old(store)@, student@, uuid, salt@, now),
{
    let (asked, waiting) = match Registration::start(student) {
        Step::Done(created) => { return created; },
        Step::Ask(query, state) => (query, state),
    };
    let reply = store.answer(asked);
    let (asked, waiting) = match waiting.resume_with(reply, uuid, salt, now) {
        Step::Done(created) => { return created; },
        Step::Ask(query, state) => (query, state),
    };
    let reply = store.answer(asked);
    match waiting.resume_with(reply, uuid, salt, now) {
        Step::Done(created) => created,
        Step::Ask(_, _) => breaks(unexpected_reply_error()),
    }
}

/// Registers an account in the store under a fresh identity, with the
/// password hashed under a fresh salt, dated by the clock.
pub fn register_student(student: CreateStudent, store: &mut Store) -> (created: Created)
    ensures
        exists|uuid: u128, salt: Seq<char>, now: Timestamp|
            usable_salt(salt) && (final(store)@, created.seen()) == #[trigger] registered(
                old(store)@,
                student@,
                uuid,
                salt,
                now,
            ),
{
    let ghost before = store@;
    let uuid = fresh_identity();
    let salt = fresh_salt();
    let at = now();
    let created = register_student_with(student, store, uuid, salt.as_str(), at);
    assert(usable_salt(salt@) && (store@, created.seen()) == registered(
        before,
        student@,
        uuid,
        salt@,
        at,
    ));
    created
}

} // verus!
