//! The decision of the login handler.
//!
//! A login searches for the row with the submitted email. The handler does
//! the statement; what its outcome means is decided here.

use vstd::prelude::*;
use crate::envelope::{failure_reply, success_reply, unknown_user_reply, Endpoint, HttpReply, HttpReplyView};
use crate::error::DbError;
use crate::store::found_view;
use crate::user::{LoginRequest, User, UserView};

verus! {

/// The reply to a login for `email` whose search had the outcome `found`.
///
/// A row that was found is a success, reported with what that row stores. No
/// row is refused as an unknown user. A search that failed, or that could not
/// start for want of a connection, gets the failure reply of that error.
pub open spec fn reply_after_lookup(
    email: Seq<char>,
    found: Result<Option<UserView>, DbError>,
) -> HttpReplyView {
    match found {
        Ok(Some(stored)) => success_reply(Endpoint::Login, stored),
        Ok(None) => unknown_user_reply(email),
        Err(error) => failure_reply(Endpoint::Login, error, email),
    }
}

/// Decides the reply that follows the search for the email of `request`.
pub fn after_lookup(request: &LoginRequest, found: Result<Option<User>, DbError>) -> (reply:
    HttpReply)
    ensures
        reply@ == reply_after_lookup(request@, found_view(found)),
{
    match found {
        Ok(Some(stored)) => HttpReply::success(Endpoint::Login, &stored.name, &stored.email),
        Ok(None) => HttpReply::unknown_user(&request.email),
        Err(error) => HttpReply::failure(Endpoint::Login, error, &request.email),
    }
}

} // verus!
