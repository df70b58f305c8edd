use opendiary::auth::{
    drop_session, drop_session_at, ensure_authenticated, ensure_authenticated_at, login_student,
    login_student_at, query_user_id, register_student, register_student_with, AuthResult,
    CreateStudent, CreatedStudent, DropSession, EnsureSession, LoggedInStudent, LoginStudent,
    SessionBasedResponse, SessionDropped,
};
use opendiary::err::InternalKind;
use opendiary::hasher::verify;
use opendiary::models::{StudentData, StudentSession};
use opendiary::store::{AccountKey, Query, Reply, SessionKey, Store};
use opendiary::token::session_token;
use opendiary::{Error, Maybe, Payload, Timestamp};

const SALT: &str = "c2FsdHNhbHRzYWx0c2FsdA";
const TWO_DAYS: i64 = 172_800_000_000;

fn student(username: &str, email: &str, password: &str) -> CreateStudent {
    CreateStudent {
        username: username.to_string(),
        name: "Alice".to_string(),
        surname: "Liddell".to_string(),
        patronymic: Some("Henry".to_string()),
        email: email.to_string(),
        password: password.to_string(),
    }
}

fn granted<T>(payload: Payload<T>) -> T {
    match payload {
        Ok(Maybe::Fine(s)) => {
            assert!(s.succeeded());
            s.into_value()
        }
        Ok(Maybe::Nothing(s)) => panic!("refused: {:?}", s.value()),
        Err(e) => panic!("failed: {:?}", e),
    }
}

fn refused<T>(payload: Payload<T>) -> Error {
    match payload {
        Ok(Maybe::Nothing(s)) => {
            assert!(!s.succeeded());
            s.into_value()
        }
        Ok(Maybe::Fine(_)) => panic!("granted where a refusal was due"),
        Err(e) => panic!("failed: {:?}", e),
    }
}

fn login(uuid: u128, password: &str) -> LoginStudent {
    LoginStudent { uuid, password: password.to_string() }
}

fn logout(ssid: &str, uuid: u128) -> EnsureSession<DropSession> {
    EnsureSession { ssid: ssid.to_string(), value: DropSession { uuid } }
}

fn at(micros: i64) -> Timestamp {
    Timestamp { micros }
}

#[test]
fn registration_writes_the_account_with_a_hashed_password() {
    let mut store = Store::new();
    let created =
        granted(register_student_with(student("alice", "alice@x.com", "pw1"), &mut store, 42, SALT, at(7)));
    assert_eq!(created, CreatedStudent { student_id: 42 });
    assert_eq!(store.account_count(), 1);
    let row = store.find_account(&AccountKey::Uuid(42)).unwrap();
    assert_eq!(row.username, "alice");
    assert_eq!(row.name, "Alice");
    assert_eq!(row.surname, "Liddell");
    assert_eq!(row.patronymic.as_deref(), Some("Henry"));
    assert_eq!(row.email, "alice@x.com");
    assert_eq!(row.created_at, at(7));
    assert_ne!(row.password_hash, "pw1");
    assert!(row.password_hash.starts_with("$pbkdf2-sha256$"));
    assert!(matches!(verify(b"pw1", &row.password_hash), Ok(true)));
}

#[test]
fn registration_without_a_password_is_refused() {
    let mut store = Store::new();
    let e = refused(register_student_with(student("alice", "alice@x.com", ""), &mut store, 1, SALT, at(0)));
    assert!(matches!(e, Error::MissingCredentials { message } if message == "Provided password was empty!"));
    assert_eq!(store.account_count(), 0);
}

#[test]
fn registration_with_a_taken_username_or_email_is_refused() {
    let mut store = Store::new();
    granted(register_student_with(student("alice", "alice@x.com", "pw1"), &mut store, 1, SALT, at(0)));
    let same_email = refused(register_student_with(student("alicia", "alice@x.com", "pw2"), &mut store, 2, SALT, at(1)));
    assert!(matches!(
        same_email,
        Error::UserAlreadyExists { message } if message == "User with provided email/username already exists!"
    ));
    let same_name = refused(register_student_with(student("alice", "other@x.com", "pw2"), &mut store, 3, SALT, at(1)));
    assert!(matches!(same_name, Error::UserAlreadyExists { .. }));
    assert_eq!(store.account_count(), 1);
}

#[test]
fn registration_with_a_taken_identity_is_a_database_error() {
    let mut store = Store::new();
    granted(register_student_with(student("alice", "alice@x.com", "pw1"), &mut store, 1, SALT, at(0)));
    match refused(register_student_with(student("bob", "bob@x.com", "pw2"), &mut store, 1, SALT, at(1))) {
        Error::InternalError { kind, message } => {
            assert_eq!(kind, InternalKind::DatabaseError);
            assert_eq!(message, "Conflict(\"users\")");
        }
        _ => panic!("a second account under one identity was written"),
    }
    assert_eq!(store.account_count(), 1);
}

#[test]
fn registration_under_a_bad_salt_is_a_crypto_error() {
    let mut store = Store::new();
    match refused(register_student_with(student("alice", "alice@x.com", "pw1"), &mut store, 1, "abc", at(0))) {
        Error::InternalError { kind, .. } => assert_eq!(kind, InternalKind::CryptoError),
        _ => panic!("a salt of three characters was accepted"),
    }
    assert_eq!(store.account_count(), 0);
}

#[test]
fn lookup_after_registration_gives_the_same_identity() {
    let mut store = Store::new();
    let created = granted(register_student(student("alice", "alice@x.com", "pw1"), &mut store));
    let found = granted(query_user_id("alice".to_string(), &mut store));
    assert_eq!(found, created);
    let other = granted(register_student(student("bob", "bob@x.com", "pw2"), &mut store));
    assert_ne!(other.student_id, created.student_id);
    assert_eq!(granted(query_user_id("bob".to_string(), &mut store)), other);
    assert_eq!(granted(query_user_id("alice".to_string(), &mut store)), created);
}

#[test]
fn lookup_of_an_empty_or_unknown_username_is_refused() {
    let mut store = Store::new();
    let empty = refused(query_user_id(String::new(), &mut store));
    assert!(matches!(empty, Error::InvalidPayload { message } if message == "`username` parameter was empty"));
    let unknown = refused(query_user_id("carol".to_string(), &mut store));
    assert!(matches!(
        unknown,
        Error::UserDoesNotExist { message } if message == "User with name `carol` does not exist!"
    ));
}

#[test]
fn login_issues_one_session_that_expires_two_days_later() {
    let mut store = Store::new();
    granted(register_student_with(student("alice", "alice@x.com", "pw1"), &mut store, 42, SALT, at(0)));
    let seed = [9u8; 32];
    let session: LoggedInStudent =
        granted(login_student_at(login(42, "pw1"), &mut store, at(1_000_000), &seed));
    assert_eq!(session.session_id, session_token(&seed));
    assert_eq!(session.student_id, 42);
    assert_eq!(session.expires_at, at(1_000_000 + TWO_DAYS));
    assert_eq!(store.session_count(), 1);
    let row = store.find_session(&SessionKey::Owner(42)).unwrap();
    assert_eq!(row.ssid, session.session_id);
    assert_eq!(row.expires_at, at(172_801_000_000));
}

#[test]
fn login_twice_gives_the_same_token() {
    let mut store = Store::new();
    granted(register_student_with(student("alice", "alice@x.com", "pw1"), &mut store, 42, SALT, at(0)));
    let first = granted(login_student_at(login(42, "pw1"), &mut store, at(10), &[1u8; 32]));
    let second = granted(login_student_at(login(42, "pw1"), &mut store, at(20), &[2u8; 32]));
    assert_eq!(second.session_id, first.session_id);
    assert_eq!(second.student_id, first.student_id);
    assert_eq!(second.expires_at, first.expires_at);
    assert_eq!(store.session_count(), 1);
    let late = granted(login_student_at(login(42, "pw1"), &mut store, at(10 + 3 * TWO_DAYS), &[3u8; 32]));
    assert_eq!(late.session_id, first.session_id);
}

#[test]
fn login_is_refused_without_password_account_or_match() {
    let mut store = Store::new();
    granted(register_student_with(student("alice", "alice@x.com", "pw1"), &mut store, 42, SALT, at(0)));
    let empty = refused(login_student_at(login(42, ""), &mut store, at(1), &[0u8; 32]));
    assert!(matches!(empty, Error::InvalidPayload { message } if message == "`password` parameter was empty"));
    let unknown = refused(login_student_at(login(0xa1a2a3a4b1b2c1c2d1d2d3d4d5d6d7d8, "pw1"), &mut store, at(1), &[0u8; 32]));
    assert!(matches!(
        unknown,
        Error::UserDoesNotExist { message }
            if message == "User with uuid `a1a2a3a4-b1b2-c1c2-d1d2-d3d4d5d6d7d8` does not exist!"
    ));
    let small = refused(login_student_at(login(43, "pw1"), &mut store, at(1), &[0u8; 32]));
    assert!(matches!(
        small,
        Error::UserDoesNotExist { message }
            if message == "User with uuid `00000000-0000-0000-0000-00000000002b` does not exist!"
    ));
    let wrong = refused(login_student_at(login(42, "pw2"), &mut store, at(1), &[0u8; 32]));
    assert!(matches!(wrong, Error::AuthenticationFailure { message } if message == "Passwords do not match!"));
    assert_eq!(store.session_count(), 0);
}

#[test]
fn login_against_an_unreadable_record_is_a_crypto_error_in_an_envelope() {
    let mut store = Store::new();
    let row = StudentData {
        uuid: 5,
        username: "eve".to_string(),
        name: "E".to_string(),
        surname: "V".to_string(),
        patronymic: None,
        email: "eve@x.com".to_string(),
        password_hash: "not-a-hash".to_string(),
        created_at: at(0),
    };
    assert!(matches!(store.answer(Query::InsertAccount(row)), Reply::Affected(1)));
    match refused(login_student_at(login(5, "pw1"), &mut store, at(1), &[0u8; 32])) {
        Error::InternalError { kind, message } => {
            assert_eq!(kind, InternalKind::CryptoError);
            assert_eq!(message, "password hash string invalid");
        }
        other => panic!("reported as {:?}", other),
    }
    assert_eq!(store.session_count(), 0);
    assert!(matches!(
        refused(login_student(login(5, "pw1"), &mut store)),
        Error::InternalError { kind: InternalKind::CryptoError, .. }
    ));
}

#[test]
fn login_with_a_taken_token_is_a_database_error() {
    let mut store = Store::new();
    granted(register_student_with(student("alice", "alice@x.com", "pw1"), &mut store, 1, SALT, at(0)));
    granted(register_student_with(student("bob", "bob@x.com", "pw2"), &mut store, 2, SALT, at(0)));
    let seed = [4u8; 32];
    granted(login_student_at(login(1, "pw1"), &mut store, at(1), &seed));
    match refused(login_student_at(login(2, "pw2"), &mut store, at(2), &seed)) {
        Error::InternalError { kind, message } => {
            assert_eq!(kind, InternalKind::DatabaseError);
            assert_eq!(message, "insert violates a constraint of user_sessions");
        }
        _ => panic!("two sessions under one token were written"),
    }
    assert_eq!(store.session_count(), 1);
}

#[test]
fn an_absent_empty_or_unknown_token_is_invalid() {
    let mut store = Store::new();
    assert!(matches!(ensure_authenticated_at(None, &mut store, at(0)), Ok(AuthResult::InvalidSession)));
    assert!(matches!(ensure_authenticated_at(Some(String::new()), &mut store, at(0)), Ok(AuthResult::InvalidSession)));
    assert!(matches!(ensure_authenticated_at(Some("nope".to_string()), &mut store, at(0)), Ok(AuthResult::InvalidSession)));
    assert!(matches!(ensure_authenticated(None, &mut store), Ok(AuthResult::InvalidSession)));
    assert!(matches!(ensure_authenticated(Some(String::new()), &mut store), Ok(AuthResult::InvalidSession)));
}

#[test]
fn a_session_is_good_until_its_expiry_and_deleted_after_it() {
    let mut store = Store::new();
    granted(register_student_with(student("alice", "alice@x.com", "pw1"), &mut store, 42, SALT, at(0)));
    let session = granted(login_student_at(login(42, "pw1"), &mut store, at(100), &[1u8; 32]));
    let token = session.session_id.clone();
    let expiry = 100 + TWO_DAYS;
    assert!(matches!(ensure_authenticated_at(Some(token.clone()), &mut store, at(100)), Ok(AuthResult::Success)));
    assert!(matches!(ensure_authenticated_at(Some(token.clone()), &mut store, at(expiry)), Ok(AuthResult::Success)));
    assert_eq!(store.session_count(), 1);
    assert!(matches!(
        ensure_authenticated_at(Some(token.clone()), &mut store, at(expiry + 1)),
        Ok(AuthResult::InvalidSession)
    ));
    assert_eq!(store.session_count(), 0);
    assert!(store.find_session(&SessionKey::Token(token.clone())).is_none());
    assert!(matches!(ensure_authenticated_at(Some(token), &mut store, at(100)), Ok(AuthResult::InvalidSession)));
}

#[test]
fn the_clock_decides_between_a_past_and_a_future_expiry() {
    let mut store = Store::new();
    granted(register_student(student("alice", "alice@x.com", "pw1"), &mut store));
    let id = granted(query_user_id("alice".to_string(), &mut store)).student_id;
    let past = StudentSession { ssid: "past".to_string(), belongs_to: id, expires_at: at(1) };
    let future = StudentSession { ssid: "future".to_string(), belongs_to: id, expires_at: at(8_000_000_000_000_000_000) };
    assert!(matches!(store.answer(Query::InsertSession(past)), Reply::Affected(1)));
    assert!(matches!(store.answer(Query::InsertSession(future)), Reply::Affected(1)));
    assert!(matches!(ensure_authenticated(Some("past".to_string()), &mut store), Ok(AuthResult::InvalidSession)));
    assert!(store.find_session(&SessionKey::Token("past".to_string())).is_none());
    assert!(matches!(ensure_authenticated(Some("future".to_string()), &mut store), Ok(AuthResult::Success)));
    assert_eq!(store.session_count(), 1);
}

#[test]
fn logout_removes_the_session_of_its_owner_only() {
    let mut store = Store::new();
    granted(register_student_with(student("alice", "alice@x.com", "pw1"), &mut store, 42, SALT, at(0)));
    let session = granted(login_student_at(login(42, "pw1"), &mut store, at(100), &[1u8; 32]));
    let token = session.session_id;
    let stranger: SessionBasedResponse<SessionDropped> =
        granted(drop_session_at(logout(&token, 7), &mut store, at(200)));
    assert_eq!(stranger.auth_result, AuthResult::Success);
    assert_eq!(stranger.value, Some(SessionDropped { student_id: 7, drop_success: false }));
    assert_eq!(store.session_count(), 1);
    let owner = granted(drop_session_at(logout(&token, 42), &mut store, at(200)));
    assert_eq!(owner.auth_result, AuthResult::Success);
    assert_eq!(owner.value, Some(SessionDropped { student_id: 42, drop_success: true }));
    assert_eq!(store.session_count(), 0);
    let again = granted(drop_session_at(logout(&token, 42), &mut store, at(200)));
    assert_eq!(again.auth_result, AuthResult::InvalidSession);
    assert_eq!(again.value, None);
}

#[test]
fn logout_with_an_expired_or_empty_token_removes_nothing_more() {
    let mut store = Store::new();
    granted(register_student_with(student("alice", "alice@x.com", "pw1"), &mut store, 42, SALT, at(0)));
    let session = granted(login_student_at(login(42, "pw1"), &mut store, at(100), &[1u8; 32]));
    let empty = granted(drop_session_at(logout("", 42), &mut store, at(200)));
    assert_eq!(empty.auth_result, AuthResult::InvalidSession);
    assert_eq!(empty.value, None);
    assert_eq!(store.session_count(), 1);
    let late = granted(drop_session_at(logout(&session.session_id, 42), &mut store, at(101 + TWO_DAYS)));
    assert_eq!(late.auth_result, AuthResult::InvalidSession);
    assert_eq!(late.value, None);
    assert_eq!(store.session_count(), 0);
}

#[test]
fn alice_registers_logs_in_twice_validates_and_logs_out() {
    let mut store = Store::new();
    let alice = granted(register_student(student("alice", "alice@x.com", "pw1"), &mut store));
    let before = chrono::Utc::now().timestamp_micros();
    let s1 = granted(login_student(login(alice.student_id, "pw1"), &mut store));
    let after = chrono::Utc::now().timestamp_micros();
    assert_eq!(s1.student_id, alice.student_id);
    assert_eq!(s1.session_id.len(), 64);
    assert!(s1.session_id.chars().all(|c| c.is_ascii_digit() || ('a'..='f').contains(&c)));
    assert!(before + TWO_DAYS <= s1.expires_at.micros && s1.expires_at.micros <= after + TWO_DAYS);
    let s2 = granted(login_student(login(alice.student_id, "pw1"), &mut store));
    assert_eq!(s2.session_id, s1.session_id);
    assert_eq!(s2.expires_at, s1.expires_at);
    assert_eq!(store.session_count(), 1);
    assert!(matches!(ensure_authenticated(Some(s1.session_id.clone()), &mut store), Ok(AuthResult::Success)));
    let report = granted(drop_session(logout(&s1.session_id, alice.student_id), &mut store));
    assert_eq!(report.auth_result, AuthResult::Success);
    assert_eq!(report.value, Some(SessionDropped { student_id: alice.student_id, drop_success: true }));
    assert!(matches!(ensure_authenticated(Some(s1.session_id), &mut store), Ok(AuthResult::InvalidSession)));
}

#[test]
fn fresh_logins_of_two_accounts_get_different_tokens() {
    let mut store = Store::new();
    let a = granted(register_student(student("alice", "alice@x.com", "pw1"), &mut store));
    let b = granted(register_student(student("bob", "bob@x.com", "pw2"), &mut store));
    let ha = store.find_account(&AccountKey::Uuid(a.student_id)).unwrap().password_hash;
    let hb = store.find_account(&AccountKey::Uuid(b.student_id)).unwrap().password_hash;
    assert!(matches!(verify(b"pw1", &ha), Ok(true)));
    assert!(matches!(verify(b"pw1", &hb), Ok(false)));
    let sa = granted(login_student(login(a.student_id, "pw1"), &mut store));
    let sb = granted(login_student(login(b.student_id, "pw2"), &mut store));
    assert_ne!(sa.session_id, sb.session_id);
    assert_eq!(store.session_count(), 2);
}

#[test]
fn findings_are_reported_under_their_names() {
    assert_eq!(AuthResult::Success.as_str(), "Success");
    assert_eq!(AuthResult::SessionExpired.as_str(), "SessionExpired");
    assert_eq!(AuthResult::InvalidSession.as_str(), "InvalidSession");
}
