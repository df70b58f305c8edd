//! What holds of the operations on the store, whatever the store held
//! before and whatever the clock and the random number generators gave.
use vstd::prelude::*;
use vstd::utf8::encode_utf8;

use crate::auth::{
    CreateStudentView, CreatedStudent, DropSession, EnsureSessionView, LoginStudentView,
};
use crate::err::{fine, granted, nothing, refused, ErrorView, MaybeView};
use crate::hasher::{accepts, crypto_failure, pbkdf2_record, phc_refusal, usable_salt};
use crate::models::{Account, Session};
use crate::registry::{
    looked_up, new_account, registered, user_exists, LookupView, RegistrationView,
};
use crate::rows::{
    delete_of_none_changes_nothing, first_where_of_push, found_row_is_selected,
    kept_row_was_there, nothing_found_after_delete, nothing_found_iff_none_selected,
    pairwise_of_push, pairwise_survives_delete, without_of_push,
};
use crate::session::{
    dropped, found, issued, logged_in, password_mismatch, validated, AuthResult, LoginView,
    LogoutView, ValidationView, VerdictView,
};
use crate::step::StepView;
use crate::store::{AccountKeyView, QueryView, ReplyView, SessionKeyView, Tables};
use crate::time::{Timestamp, SESSION_LIFETIME_MICROS};

verus! {

/// Once an account is registered, the lookup of its username gives the
/// identity that the registration gave, provided the username is not empty
/// (a lookup refuses the empty username).
pub proof fn lookup_finds_the_registered_identity(
    db: Tables,
    student: CreateStudentView,
    uuid: u128,
    salt: Seq<char>,
    now: Timestamp,
)
    requires
        registered(db, student, uuid, salt, now).1 matches Ok(MaybeView::Fine(_)),
        student.username.len() > 0,
    ensures
        looked_up(registered(db, student, uuid, salt, now).0, student.username) == registered(
            db,
            student,
            uuid,
            salt,
            now,
        ).1,
        registered(db, student, uuid, salt, now).1 == granted(
            CreatedStudent { student_id: uuid },
        ),
{
    let taken = AccountKeyView::UsernameOrEmail {
        username: student.username,
        email: student.email,
    };
    let named = AccountKeyView::Username(student.username);
    let after = registered(db, student, uuid, salt, now).0;
    let account = after.accounts.last();
    nothing_found_iff_none_selected(db.accounts, |a: Account| taken.selects(a));
    assert forall|i: int| 0 <= i < db.accounts.len() implies !named.selects(
        #[trigger] db.accounts[i],
    ) by {
        assert(!taken.selects(db.accounts[i]));
    }
    nothing_found_iff_none_selected(db.accounts, |a: Account| named.selects(a));
    first_where_of_push(db.accounts, account, |a: Account| named.selects(a));
}

/// Once an account is registered, a registration under the same username or
/// the same email is refused because the user exists already, and leaves the
/// store as it is, provided it comes with a password (a registration without
/// one is refused for that).
pub proof fn registration_refuses_a_taken_name(
    db: Tables,
    first: CreateStudentView,
    uuid: u128,
    salt: Seq<char>,
    now: Timestamp,
    second: CreateStudentView,
    second_uuid: u128,
    second_salt: Seq<char>,
    later: Timestamp,
)
    requires
        registered(db, first, uuid, salt, now).1 matches Ok(MaybeView::Fine(_)),
        second.username == first.username || second.email == first.email,
        second.password.len() > 0,
    ensures
        registered(
            registered(db, first, uuid, salt, now).0,
            second,
            second_uuid,
            second_salt,
            later,
        ) == (
            registered(db, first, uuid, salt, now).0,
            refused::<CreatedStudent>(user_exists()),
        ),
{
    let after = registered(db, first, uuid, salt, now).0;
    let account = after.accounts.last();
    let taken = AccountKeyView::UsernameOrEmail {
        username: second.username,
        email: second.email,
    };
    first_where_of_push(db.accounts, account, |a: Account| taken.selects(a));
}

/// A login with the password that the account's record accepts, for an
/// account that has no session, writes exactly one session: it belongs to
/// the account, bears the token that the seed gives, and expires two days
/// after the login. This holds where the token is borne by no session yet
/// and the password is not empty (a login refuses the empty password).
pub proof fn login_issues_one_session(
    db: Tables,
    login: LoginStudentView,
    now: Timestamp,
    seed: Seq<u8>,
)
    requires
        login.password.len() > 0,
        db.account(AccountKeyView::Uuid(login.uuid)) matches Some(account) && accepts(
            account.password_hash,
            encode_utf8(login.password),
        ),
        db.session(SessionKeyView::Owner(login.uuid)) is None,
        db.session(SessionKeyView::Token(issued(login.uuid, now, seed).ssid)) is None,
    ensures
        logged_in(db, login, now, seed) == (
            db.with_session(issued(login.uuid, now, seed)),
            granted(issued(login.uuid, now, seed)),
        ),
        logged_in(db, login, now, seed).0.selected_sessions(SessionKeyView::Owner(login.uuid))
            == 1,
        now.can_issue() ==> issued(login.uuid, now, seed).expires_at.micros == now.micros
            + SESSION_LIFETIME_MICROS,
{
    let by_identity = AccountKeyView::Uuid(login.uuid);
    let owned = SessionKeyView::Owner(login.uuid);
    let session = issued(login.uuid, now, seed);
    found_row_is_selected(db.accounts, |a: Account| by_identity.selects(a));
    delete_of_none_changes_nothing(db.sessions, |s: Session| owned.selects(s));
    without_of_push(db.sessions, session, |s: Session| owned.selects(s));
}

/// A login that succeeded, made once more, gives the same session and with
/// it the same token, and leaves the store as the first login left it,
/// whatever the clock shows and whatever seed is drawn the second time.
pub proof fn login_twice_gives_the_same_session(
    db: Tables,
    login: LoginStudentView,
    now: Timestamp,
    seed: Seq<u8>,
    later: Timestamp,
    second_seed: Seq<u8>,
)
    requires
        logged_in(db, login, now, seed).1 matches Ok(MaybeView::Fine(_)),
    ensures
        logged_in(logged_in(db, login, now, seed).0, login, later, second_seed) == (
            logged_in(db, login, now, seed).0,
            logged_in(db, login, now, seed).1,
        ),
{
    let by_identity = AccountKeyView::Uuid(login.uuid);
    let owned = SessionKeyView::Owner(login.uuid);
    found_row_is_selected(db.accounts, |a: Account| by_identity.selects(a));
    if db.session(owned) is None {
        let account = db.account(by_identity)->0;
        let session = issued(account.uuid, now, seed);
        first_where_of_push(db.sessions, session, |s: Session| owned.selects(s));
    }
}

/// The check of a token whose session has expired finds the token invalid,
/// and afterwards no session in the store bears the token. This holds of
/// every token but the empty one, which is invalid without a look at the
/// store.
pub proof fn expired_session_is_deleted(db: Tables, ssid: Seq<char>, now: Timestamp)
    requires
        ssid.len() > 0,
        db.session(SessionKeyView::Token(ssid)) matches Some(session) && now.is_after(
            session.expires_at,
        ),
    ensures
        validated(db, Some(ssid), now).1 == found(AuthResult::InvalidSession),
        validated(db, Some(ssid), now).0.session(SessionKeyView::Token(ssid)) is None,
        validated(db, Some(ssid), now).0.accounts == db.accounts,
{
    let bears = SessionKeyView::Token(ssid);
    nothing_found_after_delete(db.sessions, |s: Session| bears.selects(s));
}

/// The check of an absent or empty token finds it invalid, never fails, asks
/// the store nothing and leaves it as it is.
pub proof fn absent_token_is_invalid(db: Tables, now: Timestamp)
    ensures
        ValidationView::start(None) == StepView::<ValidationView, VerdictView>::Done(
            found(AuthResult::InvalidSession),
        ),
        ValidationView::start(Some(Seq::<char>::empty())) == StepView::<
            ValidationView,
            VerdictView,
        >::Done(found(AuthResult::InvalidSession)),
        validated(db, None, now) == (db, found(AuthResult::InvalidSession)),
        validated(db, Some(Seq::<char>::empty()), now) == (
            db,
            found(AuthResult::InvalidSession),
        ),
{
}

/// The empty store meets the constraints of its relations, and no account
/// in it has two sessions.
pub proof fn empty_store_is_sound()
    ensures
        Tables::empty().constrained(),
        Tables::empty().one_session_each(),
{
}

/// Whatever the store is asked, it goes on meeting the constraints of its
/// relations: identities, usernames and emails stay unique among the
/// accounts, tokens stay unique among the sessions, and every session
/// belongs to an account.
pub proof fn answers_keep_the_constraints(db: Tables, query: QueryView)
    requires
        db.constrained(),
    ensures
        db.answer(query).0.constrained(),
{
    let after = db.answer(query).0;
    match query {
        QueryView::InsertAccount(account) => {
            if db.admits_account(account) {
                let same = AccountKeyView::Uuid(account.uuid);
                let named = AccountKeyView::UsernameOrEmail {
                    username: account.username,
                    email: account.email,
                };
                nothing_found_iff_none_selected(db.accounts, |a: Account| same.selects(a));
                nothing_found_iff_none_selected(db.accounts, |a: Account| named.selects(a));
                let apart = |one: Account, other: Account|
                    one.uuid != other.uuid && one.username != other.username && one.email
                        != other.email;
                assert forall|i: int| 0 <= i < db.accounts.len() implies apart(
                    #[trigger] db.accounts[i],
                    account,
                ) by {
                    assert(!same.selects(db.accounts[i]));
                    assert(!named.selects(db.accounts[i]));
                }
                pairwise_of_push(db.accounts, account, apart);
                assert forall|i: int| 0 <= i < after.sessions.len() implies after.account(
                    AccountKeyView::Uuid((#[trigger] after.sessions[i]).belongs_to),
                ) is Some by {
                    let owner = AccountKeyView::Uuid(db.sessions[i].belongs_to);
                    first_where_of_push(db.accounts, account, |a: Account| owner.selects(a));
                }
            }
        },
        QueryView::InsertSession(session) => {
            if db.admits_session(session) {
                let bears = SessionKeyView::Token(session.ssid);
                nothing_found_iff_none_selected(db.sessions, |s: Session| bears.selects(s));
                let apart = |one: Session, other: Session| one.ssid != other.ssid;
                assert forall|i: int| 0 <= i < db.sessions.len() implies apart(
                    #[trigger] db.sessions[i],
                    session,
                ) by {
                    assert(!bears.selects(db.sessions[i]));
                }
                pairwise_of_push(db.sessions, session, apart);
                assert forall|i: int| 0 <= i < after.sessions.len() implies after.account(
                    AccountKeyView::Uuid((#[trigger] after.sessions[i]).belongs_to),
                ) is Some by {
                    if i < db.sessions.len() {
                        assert(after.sessions[i] == db.sessions[i]);
                    }
                }
            }
        },
        QueryView::DeleteSessions(key) => {
            let selects = |s: Session| key.selects(s);
            pairwise_survives_delete(
                db.sessions,
                |one: Session, other: Session| one.ssid != other.ssid,
                selects,
            );
            assert forall|i: int| 0 <= i < after.sessions.len() implies after.account(
                AccountKeyView::Uuid((#[trigger] after.sessions[i]).belongs_to),
            ) is Some by {
                kept_row_was_there(db.sessions, selects, i);
                let k = choose|k: int|
                    0 <= k < db.sessions.len() && db.sessions[k] == after.sessions[i];
                assert(db.sessions[k].belongs_to == after.sessions[i].belongs_to);
            }
        },
        _ => {},
    }
}

/// Deleting sessions leaves no account with more than one session that had
/// no more than one before.
pub proof fn deleting_keeps_one_session_each(db: Tables, key: SessionKeyView)
    requires
        db.one_session_each(),
    ensures
        db.without_sessions(key).one_session_each(),
{
    pairwise_survives_delete(
        db.sessions,
        |one: Session, other: Session| one.belongs_to != other.belongs_to,
        |s: Session| key.selects(s),
    );
}

/// A registration keeps the constraints of the store and leaves every
/// account with one session at most.
pub proof fn registration_keeps_the_store_sound(
    db: Tables,
    student: CreateStudentView,
    uuid: u128,
    salt: Seq<char>,
    now: Timestamp,
)
    requires
        db.constrained(),
        db.one_session_each(),
    ensures
        registered(db, student, uuid, salt, now).0.constrained(),
        registered(db, student, uuid, salt, now).0.one_session_each(),
{
    let after = registered(db, student, uuid, salt, now).0;
    if after != db {
        let account = after.accounts.last();
        assert(after == db.answer(QueryView::InsertAccount(account)).0);
        answers_keep_the_constraints(db, QueryView::InsertAccount(account));
    }
}

/// A login keeps the constraints of the store and leaves every account
/// with one session at most: it issues a session only to an account that
/// has none.
pub proof fn login_keeps_the_store_sound(
    db: Tables,
    login: LoginStudentView,
    now: Timestamp,
    seed: Seq<u8>,
)
    requires
        db.constrained(),
        db.one_session_each(),
    ensures
        logged_in(db, login, now, seed).0.constrained(),
        logged_in(db, login, now, seed).0.one_session_each(),
{
    let after = logged_in(db, login, now, seed).0;
    if after != db {
        let by_identity = AccountKeyView::Uuid(login.uuid);
        let owned = SessionKeyView::Owner(login.uuid);
        let session = after.sessions.last();
        found_row_is_selected(db.accounts, |a: Account| by_identity.selects(a));
        assert(after == db.answer(QueryView::InsertSession(session)).0);
        answers_keep_the_constraints(db, QueryView::InsertSession(session));
        nothing_found_iff_none_selected(db.sessions, |s: Session| owned.selects(s));
        let apart = |one: Session, other: Session| one.belongs_to != other.belongs_to;
        assert forall|i: int| 0 <= i < db.sessions.len() implies apart(
            #[trigger] db.sessions[i],
            session,
        ) by {
            assert(!owned.selects(db.sessions[i]));
        }
        pairwise_of_push(db.sessions, session, apart);
    }
}

/// The check of a token keeps the constraints of the store and leaves
/// every account with one session at most.
pub proof fn validation_keeps_the_store_sound(
    db: Tables,
    session_id: Option<Seq<char>>,
    now: Timestamp,
)
    requires
        db.constrained(),
        db.one_session_each(),
    ensures
        validated(db, session_id, now).0.constrained(),
        validated(db, session_id, now).0.one_session_each(),
{
    let after = validated(db, session_id, now).0;
    if after != db {
        let key = SessionKeyView::Token(session_id->0);
        assert(after == db.answer(QueryView::DeleteSessions(key)).0);
        answers_keep_the_constraints(db, QueryView::DeleteSessions(key));
        deleting_keeps_one_session_each(db, key);
    }
}

/// A logout keeps the constraints of the store and leaves every account
/// with one session at most.
pub proof fn logout_keeps_the_store_sound(
    db: Tables,
    request: EnsureSessionView<DropSession>,
    now: Timestamp,
)
    requires
        db.constrained(),
        db.one_session_each(),
    ensures
        dropped(db, request, now).0.constrained(),
        dropped(db, request, now).0.one_session_each(),
{
    let checked = validated(db, Some(request.ssid), now).0;
    validation_keeps_the_store_sound(db, Some(request.ssid), now);
    let key = SessionKeyView::TokenAndOwner { ssid: request.ssid, belongs_to: request.value.uuid };
    answers_keep_the_constraints(checked, QueryView::DeleteSessions(key));
    deleting_keeps_one_session_each(checked, key);
}

/// A logout that the check of the token let through leaves no session that
/// bears the token and belongs to the account named in the request.
pub proof fn logout_removes_the_session(
    db: Tables,
    request: EnsureSessionView<DropSession>,
    now: Timestamp,
)
    requires
        validated(db, Some(request.ssid), now).1 == found(AuthResult::Success),
    ensures
        dropped(db, request, now).0.session(
            SessionKeyView::TokenAndOwner { ssid: request.ssid, belongs_to: request.value.uuid },
        ) is None,
{
    let key = SessionKeyView::TokenAndOwner { ssid: request.ssid, belongs_to: request.value.uuid };
    nothing_found_after_delete(db.sessions, |s: Session| key.selects(s));
}

/// A registration with a password succeeds where no account bears its
/// username, its email or the identity drawn for it, and the salt is one
/// under which hashing does not fail, as every salt is that is drawn for a
/// registration. It writes the account and reports the identity.
pub proof fn registration_with_free_keys_succeeds(
    db: Tables,
    student: CreateStudentView,
    uuid: u128,
    salt: Seq<char>,
    now: Timestamp,
)
    requires
        student.password.len() > 0,
        db.account(
            AccountKeyView::UsernameOrEmail { username: student.username, email: student.email },
        ) is None,
        db.account(AccountKeyView::Uuid(uuid)) is None,
        usable_salt(salt),
    ensures
        registered(db, student, uuid, salt, now) == (
            db.with_account(
                new_account(
                    student,
                    uuid,
                    pbkdf2_record(encode_utf8(student.password), salt)->Ok_0,
                    now,
                ),
            ),
            granted(CreatedStudent { student_id: uuid }),
        ),
{
    assert(pbkdf2_record(encode_utf8(student.password), salt) is Ok);
}

/// A login with a password that the account's record does not accept is
/// refused as a failure of authentication, and a login against a record
/// that cannot be read is reported as a fault of the hasher. Either way the
/// answer is a failure envelope and the store stays as it is.
pub proof fn login_without_the_password_is_refused(
    db: Tables,
    login: LoginStudentView,
    now: Timestamp,
    seed: Seq<u8>,
)
    requires
        login.password.len() > 0,
        db.account(AccountKeyView::Uuid(login.uuid)) is Some,
        !accepts(
            db.account(AccountKeyView::Uuid(login.uuid))->0.password_hash,
            encode_utf8(login.password),
        ),
    ensures
        logged_in(db, login, now, seed) == (
            db,
            refused::<Session>(
                match phc_refusal(db.account(AccountKeyView::Uuid(login.uuid))->0.password_hash) {
                    Some(text) => crypto_failure(text),
                    None => password_mismatch(),
                },
            ),
        ),
{
}

/// Whatever the store holds and whatever is drawn, a registration, a lookup,
/// a login and a logout answer with an envelope whose flag tells a success
/// from a failure; none of them answers with a bare error.
pub proof fn operations_answer_in_envelopes(
    db: Tables,
    student: CreateStudentView,
    login: LoginStudentView,
    request: EnsureSessionView<DropSession>,
    uuid: u128,
    salt: Seq<char>,
    seed: Seq<u8>,
    now: Timestamp,
)
    ensures
        registered(db, student, uuid, salt, now).1 matches Ok(envelope) && envelope.wf(),
        looked_up(db, student.username) matches Ok(envelope) && envelope.wf(),
        logged_in(db, login, now, seed).1 matches Ok(envelope) && envelope.wf(),
        dropped(db, request, now).1 matches Ok(envelope) && envelope.wf(),
{
}

/// Whatever the store replies, be it a fault or a reply that the query did
/// not call for, a registration, a lookup, a login and a logout that end do
/// so with an envelope.
pub proof fn steps_end_in_envelopes(
    reply: ReplyView,
    now: Timestamp,
    seed: Seq<u8>,
    uuid: u128,
    salt: Seq<char>,
    lookup: LookupView,
    registration: RegistrationView,
    login: LoginView,
    logout: LogoutView,
)
    ensures
        lookup.next(reply) matches StepView::Done(outcome) ==> outcome matches Ok(envelope)
            && envelope.wf(),
        registration.next(reply, uuid, salt, now) matches StepView::Done(outcome)
            ==> outcome matches Ok(envelope) && envelope.wf(),
        login.next(reply, now, seed) matches StepView::Done(outcome) ==> outcome matches Ok(
            envelope,
        ) && envelope.wf(),
        logout.next(reply, now) matches StepView::Done(outcome) ==> outcome matches Ok(envelope)
            && envelope.wf(),
{
}

/// The envelope of a success has its flag set and the envelope of a
/// failure has it cleared, so that a client can always tell the two apart
/// by the flag.
pub proof fn envelopes_bear_the_right_flag<T>(value: T, error: ErrorView)
    ensures
        fine(value).wf(),
        nothing::<T>(error).wf(),
{
}

/// Whatever the store replies, an operation that asks again has fewer
/// queries left than before: a check of a token ends after two queries at
/// most, a lookup after one, a registration after two, and a login or a
/// logout after three.
pub proof fn operations_come_to_an_end(
    reply: ReplyView,
    now: Timestamp,
    seed: Seq<u8>,
    uuid: u128,
    salt: Seq<char>,
    validation: ValidationView,
    lookup: LookupView,
    registration: RegistrationView,
    login: LoginView,
    logout: LogoutView,
)
    ensures
        validation.next(reply, now) matches StepView::Ask(_, then) ==> then.queries_left()
            < validation.queries_left(),
        lookup.next(reply) is Done,
        registration.next(reply, uuid, salt, now) matches StepView::Ask(_, then)
            ==> then.queries_left() < registration.queries_left(),
        login.next(reply, now, seed) matches StepView::Ask(_, then) ==> then.queries_left()
            < login.queries_left(),
        logout.next(reply, now) matches StepView::Ask(_, then) ==> then.queries_left()
            < logout.queries_left(),
{
}

} // verus!
