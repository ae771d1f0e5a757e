//! The decisions of the registration handler.
//!
//! A registration first searches for a row with the submitted email, then
//! inserts the submitted row unless the search forbids it. The handler does
//! the two statements; what each outcome means is decided here.

use vstd::prelude::*;
use crate::envelope::{conflict_reply, failure_reply, success_reply, Endpoint, HttpReply, HttpReplyView};
use crate::error::DbError;
use crate::store::found_view;
use crate::user::{RegisterRequest, User, UserView};

verus! {

/// What a registration does once the search for its email has answered.
#[derive(Clone, Debug, PartialEq, Eq)]
pub enum RegisterStep {
    /// Insert this row, then conclude with the outcome of the insertion.
    Insert(User),
    /// Answer with this reply; nothing is inserted.
    Reply(HttpReply),
}

/// The mathematical value of a [`RegisterStep`].
pub enum RegisterStepView {
    Insert(UserView),
    Reply(HttpReplyView),
}

impl View for RegisterStep {
    type V = RegisterStepView;

    open spec fn view(&self) -> RegisterStepView {
        match self {
            RegisterStep::Insert(user) => RegisterStepView::Insert(user@),
            RegisterStep::Reply(reply) => RegisterStepView::Reply(reply@),
        }
    }
}

/// The step that follows the search for the email of `request`.
///
/// A row that was found is a conflict, reported with what that row stores.
/// No row means that the submitted one is inserted. A search that failed, or
/// that could not start for want of a connection, ends the request with the
/// failure reply of that error.
pub open spec fn step_after_lookup(
    request: UserView,
    found: Result<Option<UserView>, DbError>,
) -> RegisterStepView {
    match found {
        Ok(Some(existing)) => RegisterStepView::Reply(conflict_reply(existing)),
        Ok(None) => RegisterStepView::Insert(request),
        Err(error) => RegisterStepView::Reply(
            failure_reply(Endpoint::Register, error, request.email),
        ),
    }
}

/// The reply that ends a registration whose insertion had the outcome
/// `inserted`: success with the submitted name and email, or the failure
/// reply of the error.
pub open spec fn reply_after_insert(request: UserView, inserted: Result<(), DbError>) -> HttpReplyView {
    match inserted {
        Ok(_) => success_reply(Endpoint::Register, request),
        Err(error) => failure_reply(Endpoint::Register, error, request.email),
    }
}

/// Decides what follows the search for the email of `request`.
pub fn after_lookup(request: &RegisterRequest, found: Result<Option<User>, DbError>) -> (step:
    RegisterStep)
    ensures
        step@ == step_after_lookup(request@, found_view(found)),
{
    match found {
        Ok(Some(existing)) => RegisterStep::Reply(
            HttpReply::conflict(&existing.name, &existing.email),
        ),
        Ok(None) => RegisterStep::Insert(request.to_user()),
        Err(error) => RegisterStep::Reply(
            HttpReply::failure(Endpoint::Register, error, &request.email),
        ),
    }
}

/// Decides the reply that follows the insertion of the row of `request`.
pub fn after_insert(request: &RegisterRequest, inserted: Result<(), DbError>) -> (reply: HttpReply)
    ensures
        reply@ == reply_after_insert(request@, inserted),
{
    match inserted {
        Ok(_) => HttpReply::success(Endpoint::Register, &request.name, &request.email),
        Err(error) => HttpReply::failure(Endpoint::Register, error, &request.email),
    }
}

} // verus!
