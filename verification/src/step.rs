//! The shape that every operation shares: it asks the store a query and
//! waits, or it is done.
use vstd::prelude::*;

use crate::err::{Error, ErrorView, InternalKind, Outcome};
use crate::store::{Query, QueryView};

verus! {

/// One step of an operation: a query to put to the store and the state in
/// which to wait for the reply, or the outcome.
#[derive(Debug)]
pub enum Step<M, T> {
    Ask(Query, M),
    Done(T),
}

/// A [`Step`] as contracts see it.
pub enum StepView<M, T> {
    Ask(QueryView, M),
    Done(T),
}

impl<M: View, T: Outcome> View for Step<M, T> {
    type V = StepView<M::V, T::Seen>;

    open spec fn view(&self) -> Self::V {
        match self {
            Step::Ask(query, state) => StepView::Ask(query@, state@),
            Step::Done(outcome) => StepView::Done(outcome.seen()),
        }
    }
}

/// The failure with which a fault of the store is reported.
pub open spec fn database_failure(text: Seq<char>) -> ErrorView {
    ErrorView::InternalError { kind: InternalKind::DatabaseError, message: text }
}

/// The failure with which a reply is refused that does not fit the query.
pub open spec fn unexpected_reply() -> ErrorView {
    ErrorView::Unknown { message: "The store gave a reply that the query does not call for!"@ }
}

/// The failure with which a fault of the store is reported.
pub fn database_error(text: String) -> (e: Error)
    ensures
        e@ == database_failure(text@),
{
    Error::internal(InternalKind::DatabaseError, text)
}

/// The failure with which a reply is refused that does not fit the query.
pub fn unexpected_reply_error() -> (e: Error)
    ensures
        e@ == unexpected_reply(),
{
    Error::unknown("The store gave a reply that the query does not call for!")
}

} // verus!
