//! The two relations of the service: accounts and sessions.
use vstd::prelude::*;

use crate::time::Timestamp;

verus! {

/// The view of a text that may be absent.
pub open spec fn optional_text(text: Option<String>) -> Option<Seq<char>> {
    match text {
        Some(t) => Some(t@),
        None => None,
    }
}

/// One row of the account relation.
#[derive(Debug)]
pub struct StudentData {
    pub uuid: u128,
    pub username: String,
    pub name: String,
    pub surname: String,
    pub patronymic: Option<String>,
    pub email: String,
    pub password_hash: String,
    pub created_at: Timestamp,
}

/// An account as contracts see it.
pub struct Account {
    pub uuid: u128,
    pub username: Seq<char>,
    pub name: Seq<char>,
    pub surname: Seq<char>,
    pub patronymic: Option<Seq<char>>,
    pub email: Seq<char>,
    pub password_hash: Seq<char>,
    pub created_at: Timestamp,
}

impl View for StudentData {
    type V = Account;

    open spec fn view(&self) -> Account {
        Account {
            uuid: self.uuid,
            username: self.username@,
            name: self.name@,
            surname: self.surname@,
            patronymic: optional_text(self.patronymic),
            email: self.email@,
            password_hash: self.password_hash@,
            created_at: self.created_at,
        }
    }
}

impl DeepView for StudentData {
    type V = Account;

    open spec fn deep_view(&self) -> Account {
        self@
    }
}

impl Clone for StudentData {
    fn clone(&self) -> (copy: Self)
        ensures
            copy@ == self@,
    {
        StudentData {
            uuid: self.uuid,
            username: self.username.clone(),
            name: self.name.clone(),
            surname: self.surname.clone(),
            patronymic: match &self.patronymic {
                Some(p) => Some(p.clone()),
                None => None,
            },
            email: self.email.clone(),
            password_hash: self.password_hash.clone(),
            created_at: self.created_at,
        }
    }
}

/// One row of the session relation.
#[derive(Debug)]
pub struct StudentSession {
    pub ssid: String,
    pub belongs_to: u128,
    pub expires_at: Timestamp,
}

/// A session as contracts see it.
pub struct Session {
    pub ssid: Seq<char>,
    pub belongs_to: u128,
    pub expires_at: Timestamp,
}

impl View for StudentSession {
    type V = Session;

    open spec fn view(&self) -> Session {
        Session { ssid: self.ssid@, belongs_to: self.belongs_to, expires_at: self.expires_at }
    }
}

impl DeepView for StudentSession {
    type V = Session;

    open spec fn deep_view(&self) -> Session {
        self@
    }
}

impl Clone for StudentSession {
    fn clone(&self) -> (copy: Self)
        ensures
            copy@ == self@,
    {
        StudentSession {
            ssid: self.ssid.clone(),
            belongs_to: self.belongs_to,
            expires_at: self.expires_at,
        }
    }
}

} // verus!
