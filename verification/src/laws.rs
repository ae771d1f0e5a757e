//! What holds of the service over several requests.

use vstd::prelude::*;
use crate::counters::{calls_to, recorded_all, RequestCounters};
use crate::envelope::{conflict_reply, success_reply, unknown_user_reply, Endpoint};
use crate::error::DbError;
use crate::register::{step_after_lookup, RegisterStepView};
use crate::service::{login_reply, register_reply, rows_after_register};
use crate::store::{
    lemma_rows_with_email_members, lemma_rows_with_email_push, lemma_unique_emails_lookup, lookup,
    rows_with_email, unique_emails,
};
use crate::user::UserView;

verus! {

/// No row of `rows` has `email`.
pub open spec fn email_is_free(rows: Seq<UserView>, email: Seq<char>) -> bool {
    forall|i: int| 0 <= i < rows.len() ==> (#[trigger] rows[i]).email != email
}

/// The rows of the table after the registrations `requests`, handled in that
/// order on a table that held `rows`.
pub open spec fn rows_after_registrations(rows: Seq<UserView>, requests: Seq<UserView>) -> Seq<
    UserView,
>
    decreases requests.len(),
{
    if requests.len() == 0 {
        rows
    } else {
        rows_after_register(
            rows_after_registrations(rows, requests.drop_last()),
            requests.last(),
        )
    }
}

/// An email that no row has is found by no search, and the other way round.
pub proof fn lemma_free_email_lookup(rows: Seq<UserView>, email: Seq<char>)
    ensures
        email_is_free(rows, email) <==> lookup(rows, email) == Ok::<Option<UserView>, DbError>(None),
    decreases rows.len(),
{
    reveal(Seq::filter);
    if rows.len() > 0 {
        let front = rows.drop_last();
        assert(front.push(rows.last()) =~= rows);
        lemma_free_email_lookup(front, email);
        lemma_rows_with_email_push(front, rows.last(), email);
        if email_is_free(rows, email) {
            assert(rows[rows.len() - 1].email != email);
            assert forall|i: int| 0 <= i < front.len() implies (#[trigger] front[i]).email
                != email by {
                assert(rows[i].email != email);
            }
        }
        if rows_with_email(rows, email).len() == 0 {
            assert forall|i: int| 0 <= i < rows.len() implies (#[trigger] rows[i]).email
                != email by {
                if i < front.len() {
                    assert(front[i].email != email);
                }
            }
        }
    }
}

/// Registering an email that no row has succeeds with the submitted name and
/// email, and a login with that email right after it succeeds with the same
/// name.
pub proof fn law_register_then_login(rows: Seq<UserView>, request: UserView)
    requires
        email_is_free(rows, request.email),
    ensures
        register_reply(rows, request) == success_reply(Endpoint::Register, request),
        rows_after_register(rows, request) == rows.push(request),
        login_reply(rows_after_register(rows, request), request.email) == success_reply(
            Endpoint::Login,
            request,
        ),
{
    lemma_free_email_lookup(rows, request.email);
    lemma_rows_with_email_push(rows, request, request.email);
}

/// Registering an email a second time is refused as a conflict. The reply
/// carries the name that the table stored for that email before the second
/// attempt, not the one that the second attempt submitted: the name of the
/// first attempt where the email was free then, else the name of the row that
/// already had it. The second attempt leaves the table as it was.
pub proof fn law_register_twice_conflicts(rows: Seq<UserView>, first: UserView, second: UserView)
    requires
        lookup(rows, first.email) is Ok,
        second.email == first.email,
    ensures
        register_reply(rows_after_register(rows, first), second) == conflict_reply(
            match lookup(rows, first.email) {
                Ok(Some(stored)) => stored,
                _ => first,
            },
        ),
        email_is_free(rows, first.email) ==> register_reply(rows_after_register(rows, first), second)
            == conflict_reply(first),
        rows_after_register(rows_after_register(rows, first), second) == rows_after_register(
            rows,
            first,
        ),
{
    lemma_free_email_lookup(rows, first.email);
    lemma_rows_with_email_push(rows, first, first.email);
}

/// A registration leaves alone every email but its own: one that was free
/// before it and is not the submitted one is free after it.
pub proof fn lemma_register_keeps_free(rows: Seq<UserView>, request: UserView, email: Seq<char>)
    requires
        email_is_free(rows, email),
        request.email != email,
    ensures
        email_is_free(rows_after_register(rows, request), email),
{
}

/// A login with an email that was never registered is refused: on a table
/// that did not hold the email and has since seen any registrations but one
/// of that email, the reply says that the user does not exist, and carries
/// the email and no name. The table that starts empty is such a table.
pub proof fn law_login_unregistered(rows: Seq<UserView>, requests: Seq<UserView>, email: Seq<char>)
    requires
        email_is_free(rows, email),
        forall|i: int| 0 <= i < requests.len() ==> (#[trigger] requests[i]).email != email,
    ensures
        login_reply(rows_after_registrations(rows, requests), email) == unknown_user_reply(email),
        unknown_user_reply(email).body.name is None,
{
    lemma_registrations_keep_free(rows, requests, email);
    lemma_free_email_lookup(rows_after_registrations(rows, requests), email);
}

/// Registrations of other emails leave an email free that was free.
pub proof fn lemma_registrations_keep_free(
    rows: Seq<UserView>,
    requests: Seq<UserView>,
    email: Seq<char>,
)
    requires
        email_is_free(rows, email),
        forall|i: int| 0 <= i < requests.len() ==> (#[trigger] requests[i]).email != email,
    ensures
        email_is_free(rows_after_registrations(rows, requests), email),
    decreases requests.len(),
{
    if requests.len() > 0 {
        let front = requests.drop_last();
        assert forall|i: int| 0 <= i < front.len() implies (#[trigger] front[i]).email
            != email by {
            assert(requests[i].email != email);
        }
        lemma_registrations_keep_free(rows, front, email);
        assert(requests[requests.len() - 1].email != email);
        lemma_register_keeps_free(rows_after_registrations(rows, front), requests.last(), email);
    }
}

/// A registration never gives two rows the same email: where no two rows
/// shared one before it, none do after it.
pub proof fn law_register_keeps_emails_unique(rows: Seq<UserView>, request: UserView)
    requires
        unique_emails(rows),
    ensures
        unique_emails(rows_after_register(rows, request)),
{
    lemma_unique_emails_lookup(rows, request.email);
    lemma_free_email_lookup(rows, request.email);
}

/// A table that started empty and was filled by registrations alone holds at
/// most one row for each email, so no search on it fails.
pub proof fn law_registrations_keep_emails_unique(requests: Seq<UserView>)
    ensures
        unique_emails(rows_after_registrations(Seq::empty(), requests)),
        forall|email: Seq<char>| #[trigger]
            lookup(rows_after_registrations(Seq::empty(), requests), email) is Ok,
    decreases requests.len(),
{
    if requests.len() > 0 {
        law_registrations_keep_emails_unique(requests.drop_last());
        law_register_keeps_emails_unique(
            rows_after_registrations(Seq::empty(), requests.drop_last()),
            requests.last(),
        );
    }
    assert forall|email: Seq<char>| #[trigger]
        lookup(rows_after_registrations(Seq::empty(), requests), email) is Ok by {
        lemma_unique_emails_lookup(rows_after_registrations(Seq::empty(), requests), email);
    }
}

/// A login with a registered email returns the name that its first
/// registration stored: where exactly one row has the email, the reply is a
/// success with that row's name and email.
pub proof fn law_login_returns_stored_row(rows: Seq<UserView>, email: Seq<char>)
    requires
        unique_emails(rows),
        !email_is_free(rows, email),
    ensures
        rows_with_email(rows, email).len() == 1,
        rows_with_email(rows, email)[0].email == email,
        rows.contains(rows_with_email(rows, email)[0]),
        login_reply(rows, email) == success_reply(Endpoint::Login, rows_with_email(rows, email)[0]),
{
    lemma_unique_emails_lookup(rows, email);
    lemma_free_email_lookup(rows, email);
    lemma_rows_with_email_members(rows, email, 0);
}

/// The search and the insertion of a registration are two statements, and
/// nothing holds the table between them. Where two registrations of one free
/// email both search before either inserts, both are told to insert; the
/// table then holds the email twice, and every later search for it fails.
pub proof fn law_interleaved_registrations_store_twice(
    rows: Seq<UserView>,
    first: UserView,
    second: UserView,
)
    requires
        email_is_free(rows, first.email),
        second.email == first.email,
    ensures
        step_after_lookup(first, lookup(rows, first.email)) == RegisterStepView::Insert(first),
        step_after_lookup(second, lookup(rows, second.email)) == RegisterStepView::Insert(second),
        !unique_emails(rows.push(first).push(second)),
        lookup(rows.push(first).push(second), first.email) == Err::<Option<UserView>, DbError>(
            DbError::QueryFailure,
        ),
{
    lemma_free_email_lookup(rows, first.email);
    lemma_rows_with_email_push(rows, first, first.email);
    lemma_rows_with_email_push(rows.push(first), second, first.email);
    let stored = rows.push(first).push(second);
    assert(stored[rows.len() as int].email == stored[rows.len() as int + 1].email);
}

/// Each counter equals the number of requests that its endpoint received,
/// whatever the order in which the requests of the two endpoints arrived, as
/// long as that number fits the counter.
pub proof fn law_counters_count_calls(calls: Seq<Endpoint>, endpoint: Endpoint)
    requires
        calls_to(calls, endpoint) <= u64::MAX,
    ensures
        recorded_all(
            RequestCounters { register_requests: 0, login_requests: 0 },
            calls,
        ).spec_get(endpoint) == calls_to(calls, endpoint),
    decreases calls.len(),
{
    reveal(Seq::filter);
    if calls.len() > 0 {
        law_counters_count_calls(calls.drop_last(), endpoint);
    }
}

} // verus!
