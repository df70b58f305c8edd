//! Credential and session authority of a diary service.
//!
//! The crate registers accounts, checks passwords, and issues, validates and
//! revokes session tokens. It never talks to a database itself: every
//! operation is a small state machine that names the query it needs next
//! ([`store::Query`]) and is resumed with the answer ([`store::Reply`]).
//! [`store::Store`] is an in-memory relational store that answers those
//! queries, and the functions of [`auth`] that take a `&mut Store` run an
//! operation against it from start to end.
#![allow(non_snake_case)]

pub mod auth;
pub mod err;
pub mod hasher;
pub mod identity;
pub mod laws;
pub mod models;
pub mod registry;
pub mod rows;
pub mod session;
pub mod step;
pub mod store;
pub mod time;
pub mod token;

pub use crate::err::{bails, breaks, proceeds, Error, Fine, Maybe, Nothing, Payload, Success};
pub use crate::time::Timestamp;
