//! What the operations of the service take and give, and the operations
//! themselves as they run against a [`Store`](crate::store::Store).
use vstd::prelude::*;

use crate::models::{optional_text, Session};
use crate::time::Timestamp;

pub use crate::registry::{
    query_user_id, register_student, register_student_with, Lookup, Registration,
};
pub use crate::session::{
    drop_session, drop_session_at, ensure_authenticated, ensure_authenticated_at, login_student,
    login_student_at, AuthResult, Login, Logout, Validation,
};

verus! {

/// The outcome of a logout for the account that asked for it.
#[derive(Debug, Clone, Copy, PartialEq, Eq, Structural)]
pub struct SessionDropped {
    pub student_id: u128,
    pub drop_success: bool,
}

impl View for SessionDropped {
    type V = SessionDropped;

    open spec fn view(&self) -> SessionDropped {
        *self
    }
}

/// A request to log an account out.
#[derive(Debug, Clone, Copy, PartialEq, Eq, Structural)]
pub struct DropSession {
    pub uuid: u128,
}

impl View for DropSession {
    type V = DropSession;

    open spec fn view(&self) -> DropSession {
        *self
    }
}

/// The answer to a request that had to present a session: what the check of
/// the session found, and the payload if the check let the request through.
#[derive(Debug)]
pub struct SessionBasedResponse<V> {
    pub auth_result: AuthResult,
    pub value: Option<V>,
}

/// A [`SessionBasedResponse`] as contracts see it.
pub struct SessionBasedResponseView<V> {
    pub auth_result: AuthResult,
    pub value: Option<V>,
}

impl<V: View> View for SessionBasedResponse<V> {
    type V = SessionBasedResponseView<V::V>;

    open spec fn view(&self) -> SessionBasedResponseView<V::V> {
        SessionBasedResponseView {
            auth_result: self.auth_result,
            value: match self.value {
                Some(v) => Some(v@),
                None => None,
            },
        }
    }
}

/// A request that presents a session token.
#[derive(Debug)]
pub struct EnsureSession<V> {
    pub ssid: String,
    pub value: V,
}

/// An [`EnsureSession`] as contracts see it.
pub struct EnsureSessionView<V> {
    pub ssid: Seq<char>,
    pub value: V,
}

impl<V: View> View for EnsureSession<V> {
    type V = EnsureSessionView<V::V>;

    open spec fn view(&self) -> EnsureSessionView<V::V> {
        EnsureSessionView { ssid: self.ssid@, value: self.value@ }
    }
}

/// The session that a login gave: its token, its owner and its expiry.
#[derive(Debug)]
pub struct LoggedInStudent {
    pub session_id: String,
    pub student_id: u128,
    pub expires_at: Timestamp,
}

impl View for LoggedInStudent {
    type V = Session;

    open spec fn view(&self) -> Session {
        Session {
            ssid: self.session_id@,
            belongs_to: self.student_id,
            expires_at: self.expires_at,
        }
    }
}

/// A session that was already there, under the status that says so.
#[derive(Debug)]
pub struct SessionAlreadyExists {
    pub status: String,
    pub session: LoggedInStudent,
}

/// The identity of an account.
#[derive(Debug, Clone, Copy, PartialEq, Eq, Structural)]
pub struct CreatedStudent {
    pub student_id: u128,
}

impl View for CreatedStudent {
    type V = CreatedStudent;

    open spec fn view(&self) -> CreatedStudent {
        *self
    }
}

/// A request to log in.
#[derive(Debug)]
pub struct LoginStudent {
    pub uuid: u128,
    pub password: String,
}

/// A [`LoginStudent`] as contracts see it.
pub struct LoginStudentView {
    pub uuid: u128,
    pub password: Seq<char>,
}

impl View for LoginStudent {
    type V = LoginStudentView;

    open spec fn view(&self) -> LoginStudentView {
        LoginStudentView { uuid: self.uuid, password: self.password@ }
    }
}

/// A request to register an account.
#[derive(Debug)]
pub struct CreateStudent {
    pub username: String,
    pub name: String,
    pub surname: String,
    pub patronymic: Option<String>,
    pub email: String,
    pub password: String,
}

/// A [`CreateStudent`] as contracts see it.
pub struct CreateStudentView {
    pub username: Seq<char>,
    pub name: Seq<char>,
    pub surname: Seq<char>,
    pub patronymic: Option<Seq<char>>,
    pub email: Seq<char>,
    pub password: Seq<char>,
}

impl View for CreateStudent {
    type V = CreateStudentView;

    open spec fn view(&self) -> CreateStudentView {
        CreateStudentView {
            username: self.username@,
            name: self.name@,
            surname: self.surname@,
            patronymic: optional_text(self.patronymic),
            email: self.email@,
            password: self.password@,
        }
    }
}

} // verus!
