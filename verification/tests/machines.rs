use opendiary::auth::{
    CreateStudent, DropSession, EnsureSession, Login, LoginStudent, Logout, Lookup, Registration,
    Validation,
};
use opendiary::err::InternalKind;
use opendiary::hasher::hash;
use opendiary::models::{StudentData, StudentSession};
use opendiary::session::AuthResult;
use opendiary::step::Step;
use opendiary::store::{AccountKey, Failure, Query, Reply, SessionKey};
use opendiary::token::session_token;
use opendiary::{Error, Maybe, Payload, Timestamp};

const SALT: &str = "c2FsdHNhbHRzYWx0c2FsdA";

fn at(micros: i64) -> Timestamp {
    Timestamp { micros }
}

fn failure() -> Reply {
    Reply::Failed(Failure { message: "pool timed out".to_string(), detail: "PoolTimedOut".to_string() })
}

fn asked<M, T>(step: Step<M, T>) -> (Query, M) {
    match step {
        Step::Ask(query, state) => (query, state),
        Step::Done(_) => panic!("the operation ended where a query was due"),
    }
}

fn done<M, T>(step: Step<M, T>) -> T {
    match step {
        Step::Done(outcome) => outcome,
        Step::Ask(query, _) => panic!("the operation asked {:?} where its end was due", query),
    }
}

fn database_error(e: &Error, text: &str) -> bool {
    matches!(
        e,
        Error::InternalError { kind: InternalKind::DatabaseError, message } if message == text
    )
}

fn unexpected(e: &Error) -> bool {
    matches!(
        e,
        Error::Unknown { message }
            if message == "The store gave a reply that the query does not call for!"
    )
}

fn bare<T>(outcome: Result<T, Error>) -> Error {
    match outcome {
        Err(e) => e,
        Ok(_) => panic!("a verdict where a fault was due"),
    }
}

fn enveloped<T>(outcome: Payload<T>) -> Error {
    match outcome {
        Ok(Maybe::Nothing(s)) => {
            assert!(!s.succeeded());
            s.into_value()
        }
        Ok(Maybe::Fine(_)) => panic!("a success where a failure was due"),
        Err(e) => panic!("a failure without its envelope: {:?}", e),
    }
}

fn is_database_error<T>(outcome: Payload<T>, text: &str) -> bool {
    database_error(&enveloped(outcome), text)
}

fn is_unexpected<T>(outcome: Payload<T>) -> bool {
    unexpected(&enveloped(outcome))
}

fn account(uuid: u128, record: &str) -> StudentData {
    StudentData {
        uuid,
        username: "alice".to_string(),
        name: "Alice".to_string(),
        surname: "Liddell".to_string(),
        patronymic: None,
        email: "alice@x.com".to_string(),
        password_hash: record.to_string(),
        created_at: at(0),
    }
}

fn student(password: &str) -> CreateStudent {
    CreateStudent {
        username: "alice".to_string(),
        name: "Alice".to_string(),
        surname: "Liddell".to_string(),
        patronymic: None,
        email: "alice@x.com".to_string(),
        password: password.to_string(),
    }
}

#[test]
fn validation_asks_for_the_session_then_for_its_deletion() {
    let (query, waiting) = asked(Validation::start(Some("tok".to_string())));
    assert!(matches!(query, Query::FindSession(SessionKey::Token(t)) if t == "tok"));
    let found = StudentSession { ssid: "tok".to_string(), belongs_to: 1, expires_at: at(50) };
    let (query, waiting) = asked(waiting.resume_at(Reply::Session(Some(found)), at(51)));
    assert!(matches!(query, Query::DeleteSessions(SessionKey::Token(t)) if t == "tok"));
    assert!(matches!(done(waiting.resume_at(Reply::Affected(1), at(52))), Ok(AuthResult::InvalidSession)));
}

#[test]
fn validation_ends_at_once_on_a_live_or_missing_session() {
    let (_, waiting) = asked(Validation::start(Some("tok".to_string())));
    let found = StudentSession { ssid: "tok".to_string(), belongs_to: 1, expires_at: at(50) };
    assert!(matches!(done(waiting.resume_at(Reply::Session(Some(found)), at(50))), Ok(AuthResult::Success)));
    let (_, waiting) = asked(Validation::start(Some("tok".to_string())));
    assert!(matches!(done(waiting.resume_at(Reply::Session(None), at(50))), Ok(AuthResult::InvalidSession)));
    assert!(matches!(done(Validation::start(None)), Ok(AuthResult::InvalidSession)));
    assert!(matches!(done(Validation::start(Some(String::new()))), Ok(AuthResult::InvalidSession)));
}

#[test]
fn validation_reports_a_fault_of_the_store() {
    let (_, waiting) = asked(Validation::start(Some("tok".to_string())));
    assert!(database_error(&bare(done(waiting.resume_at(failure(), at(0)))), "pool timed out"));
    let (_, waiting) = asked(Validation::start(Some("tok".to_string())));
    assert!(unexpected(&bare(done(waiting.resume_at(Reply::Affected(1), at(0))))));
    let (_, waiting) = asked(Validation::start(Some("tok".to_string())));
    let found = StudentSession { ssid: "tok".to_string(), belongs_to: 1, expires_at: at(0) };
    let (_, purging) = asked(waiting.resume_at(Reply::Session(Some(found)), at(1)));
    assert!(database_error(&bare(done(purging.resume_at(failure(), at(1)))), "pool timed out"));
    assert!(unexpected(&bare(done(Validation::AwaitPurge.resume_at(Reply::Session(None), at(1))))));
    assert!(matches!(done(Validation::AwaitPurge.resume(Reply::Affected(0))), Ok(AuthResult::InvalidSession)));
}

#[test]
fn validation_reads_the_clock_when_it_is_resumed() {
    let old = StudentSession { ssid: "tok".to_string(), belongs_to: 1, expires_at: at(1) };
    let (_, waiting) = asked(Validation::start(Some("tok".to_string())));
    let (query, _) = asked(waiting.resume(Reply::Session(Some(old))));
    assert!(matches!(query, Query::DeleteSessions(SessionKey::Token(t)) if t == "tok"));
    let young = StudentSession { ssid: "tok".to_string(), belongs_to: 1, expires_at: at(8_000_000_000_000_000_000) };
    let (_, waiting) = asked(Validation::start(Some("tok".to_string())));
    assert!(matches!(done(waiting.resume(Reply::Session(Some(young)))), Ok(AuthResult::Success)));
}

#[test]
fn lookup_asks_for_the_account_by_username() {
    let (query, waiting) = asked(Lookup::start("alice".to_string()));
    assert!(matches!(query, Query::FindAccount(AccountKey::Username(u)) if u == "alice"));
    match done(waiting.resume(Reply::Account(Some(account(77, "r"))))) {
        Ok(Maybe::Fine(s)) => assert_eq!(s.into_value().student_id, 77),
        _ => panic!("the identity was not reported"),
    }
    let (_, waiting) = asked(Lookup::start("alice".to_string()));
    assert!(is_database_error(done(waiting.resume(failure())), "pool timed out"));
    let (_, waiting) = asked(Lookup::start("alice".to_string()));
    assert!(is_unexpected(done(waiting.resume(Reply::Session(None)))));
}

#[test]
fn registration_asks_for_a_conflict_then_writes_the_account() {
    let (query, waiting) = asked(Registration::start(student("pw1")));
    assert!(matches!(
        query,
        Query::FindAccount(AccountKey::UsernameOrEmail { username, email })
            if username == "alice" && email == "alice@x.com"
    ));
    let (query, waiting) = asked(waiting.resume_with(Reply::Account(None), 42, SALT, at(9)));
    match query {
        Query::InsertAccount(row) => {
            assert_eq!(row.uuid, 42);
            assert_eq!(row.username, "alice");
            assert_eq!(row.email, "alice@x.com");
            assert_eq!(row.created_at, at(9));
            assert_eq!(row.password_hash, hash(b"pw1", SALT).unwrap());
        }
        other => panic!("asked {:?}", other),
    }
    match done(waiting.resume_with(Reply::Affected(1), 0, "", at(0))) {
        Ok(Maybe::Fine(s)) => assert_eq!(s.into_value().student_id, 42),
        _ => panic!("the registration did not succeed"),
    }
}

#[test]
fn registration_reports_what_the_store_did_not_do() {
    let (_, waiting) = asked(Registration::start(student("pw1")));
    assert!(is_database_error(done(waiting.resume_with(failure(), 1, SALT, at(0))), "pool timed out"));
    let zero = Registration::AwaitInsert { uuid: 1 }.resume_with(Reply::Affected(0), 1, SALT, at(0));
    match done(zero) {
        Ok(Maybe::Nothing(s)) => assert!(matches!(
            s.value(),
            Error::InternalError { kind: InternalKind::DatabaseError, message }
                if message == "Could not save data to database!"
        )),
        _ => panic!("a write of no row was taken for a success"),
    }
    let failed = Registration::AwaitInsert { uuid: 1 }.resume(failure());
    assert!(is_database_error(done(failed), "PoolTimedOut"));
    assert!(is_unexpected(done(Registration::AwaitInsert { uuid: 1 }.resume(Reply::Account(None)))));
    let (_, waiting) = asked(Registration::start(student("pw1")));
    assert!(is_unexpected(done(waiting.resume(Reply::Affected(1)))));
}

#[test]
fn registration_draws_an_identity_and_a_salt_when_it_is_resumed() {
    let (_, waiting) = asked(Registration::start(student("pw1")));
    let (first, _) = asked(waiting.resume(Reply::Account(None)));
    let (_, waiting) = asked(Registration::start(student("pw1")));
    let (second, _) = asked(waiting.resume(Reply::Account(None)));
    match (first, second) {
        (Query::InsertAccount(a), Query::InsertAccount(b)) => {
            assert_ne!(a.uuid, b.uuid);
            assert_ne!(a.password_hash, b.password_hash);
            assert!(a.password_hash.starts_with("$pbkdf2-sha256$i=10000,l=32$"));
            assert!(a.created_at.micros > 1_600_000_000_000_000);
        }
        _ => panic!("no account was handed to the store"),
    }
}

#[test]
fn login_asks_for_account_session_and_insert_in_turn() {
    let record = hash(b"pw1", SALT).unwrap();
    let (query, waiting) = asked(Login::start(LoginStudent { uuid: 42, password: "pw1".to_string() }));
    assert!(matches!(query, Query::FindAccount(AccountKey::Uuid(42))));
    let seed = [5u8; 32];
    let (query, waiting) = asked(waiting.resume_at(Reply::Account(Some(account(42, &record))), at(0), &seed));
    assert!(matches!(query, Query::FindSession(SessionKey::Owner(42))));
    let (query, waiting) = asked(waiting.resume_at(Reply::Session(None), at(1_000), &seed));
    match query {
        Query::InsertSession(row) => {
            assert_eq!(row.ssid, session_token(&seed));
            assert_eq!(row.belongs_to, 42);
            assert_eq!(row.expires_at, at(172_800_001_000));
        }
        other => panic!("asked {:?}", other),
    }
    match done(waiting.resume_at(Reply::Affected(1), at(2_000), &[0u8; 32])) {
        Ok(Maybe::Fine(s)) => {
            let session = s.into_value();
            assert_eq!(session.session_id, session_token(&seed));
            assert_eq!(session.student_id, 42);
            assert_eq!(session.expires_at, at(172_800_001_000));
        }
        _ => panic!("the login did not succeed"),
    }
}

#[test]
fn login_hands_an_existing_session_back_as_it_is() {
    let existing = StudentSession { ssid: "old".to_string(), belongs_to: 42, expires_at: at(3) };
    let step = Login::AwaitSession { owner: 42 }.resume_at(Reply::Session(Some(existing)), at(1_000), &[0u8; 32]);
    match done(step) {
        Ok(Maybe::Fine(s)) => {
            let session = s.into_value();
            assert_eq!(session.session_id, "old");
            assert_eq!(session.student_id, 42);
            assert_eq!(session.expires_at, at(3));
        }
        _ => panic!("the existing session was not handed back"),
    }
}

#[test]
fn login_reports_what_the_store_did_not_do() {
    let seed = [0u8; 32];
    let (_, waiting) = asked(Login::start(LoginStudent { uuid: 42, password: "pw1".to_string() }));
    assert!(is_database_error(done(waiting.resume_at(failure(), at(0), &seed)), "pool timed out"));
    assert!(is_database_error(
        done(Login::AwaitSession { owner: 1 }.resume_at(failure(), at(0), &seed)),
        "pool timed out"
    ));
    let session = StudentSession { ssid: "t".to_string(), belongs_to: 1, expires_at: at(0) };
    match done(Login::AwaitInsert { session: session.clone() }.resume_at(Reply::Affected(0), at(0), &seed)) {
        Ok(Maybe::Nothing(s)) => assert!(matches!(
            s.value(),
            Error::InternalError { kind: InternalKind::DatabaseError, message }
                if message == "Could not update session ids!"
        )),
        _ => panic!("a write of no row was taken for a success"),
    }
    assert!(is_database_error(done(Login::AwaitInsert { session: session.clone() }.resume(failure())), "pool timed out"));
    assert!(is_unexpected(done(Login::AwaitInsert { session }.resume(Reply::Session(None)))));
    assert!(is_unexpected(done(Login::AwaitSession { owner: 1 }.resume(Reply::Account(None)))));
}

#[test]
fn login_draws_a_seed_and_reads_the_clock_when_it_is_resumed() {
    let (first, _) = asked(Login::AwaitSession { owner: 1 }.resume(Reply::Session(None)));
    let (second, _) = asked(Login::AwaitSession { owner: 1 }.resume(Reply::Session(None)));
    match (first, second) {
        (Query::InsertSession(a), Query::InsertSession(b)) => {
            assert_ne!(a.ssid, b.ssid);
            assert_eq!(a.ssid.len(), 64);
            assert!(a.expires_at.micros > 1_600_000_000_000_000 + 172_800_000_000);
        }
        _ => panic!("no session was handed to the store"),
    }
}

#[test]
fn logout_checks_the_token_before_it_deletes() {
    let request = EnsureSession { ssid: "tok".to_string(), value: DropSession { uuid: 42 } };
    let (query, waiting) = asked(Logout::start(request));
    assert!(matches!(query, Query::FindSession(SessionKey::Token(t)) if t == "tok"));
    let found = StudentSession { ssid: "tok".to_string(), belongs_to: 42, expires_at: at(50) };
    let (query, waiting) = asked(waiting.resume_at(Reply::Session(Some(found)), at(10)));
    assert!(matches!(
        query,
        Query::DeleteSessions(SessionKey::TokenAndOwner { ssid, belongs_to: 42 }) if ssid == "tok"
    ));
    match done(waiting.resume_at(Reply::Affected(1), at(11))) {
        Ok(Maybe::Fine(s)) => {
            let report = s.into_value();
            assert_eq!(report.auth_result, AuthResult::Success);
            let dropped = report.value.unwrap();
            assert_eq!(dropped.student_id, 42);
            assert!(dropped.drop_success);
        }
        _ => panic!("the logout did not succeed"),
    }
}

#[test]
fn logout_of_an_expired_session_purges_it_and_reports_the_finding() {
    let request = EnsureSession { ssid: "tok".to_string(), value: DropSession { uuid: 42 } };
    let (_, waiting) = asked(Logout::start(request));
    let found = StudentSession { ssid: "tok".to_string(), belongs_to: 42, expires_at: at(50) };
    let (query, waiting) = asked(waiting.resume_at(Reply::Session(Some(found)), at(60)));
    assert!(matches!(query, Query::DeleteSessions(SessionKey::Token(t)) if t == "tok"));
    match done(waiting.resume_at(Reply::Affected(1), at(61))) {
        Ok(Maybe::Fine(s)) => {
            let report = s.into_value();
            assert_eq!(report.auth_result, AuthResult::InvalidSession);
            assert!(report.value.is_none());
        }
        _ => panic!("the finding was not reported"),
    }
}

#[test]
fn logout_reports_a_fault_of_the_store() {
    let request = EnsureSession { ssid: "tok".to_string(), value: DropSession { uuid: 42 } };
    let (_, waiting) = asked(Logout::start(request));
    assert!(is_database_error(done(waiting.resume_at(failure(), at(0))), "pool timed out"));
    assert!(is_database_error(done(Logout::AwaitDelete { uuid: 1 }.resume(failure())), "pool timed out"));
    assert!(is_unexpected(done(Logout::AwaitDelete { uuid: 1 }.resume(Reply::Session(None)))));
    match done(Logout::AwaitDelete { uuid: 1 }.resume(Reply::Affected(0))) {
        Ok(Maybe::Fine(s)) => assert!(!s.into_value().value.unwrap().drop_success),
        _ => panic!("the logout did not report"),
    }
    let empty = EnsureSession { ssid: String::new(), value: DropSession { uuid: 42 } };
    match done(Logout::start(empty)) {
        Ok(Maybe::Fine(s)) => assert_eq!(s.into_value().auth_result, AuthResult::InvalidSession),
        _ => panic!("an empty token was not found invalid"),
    }
}
