//! The service as a whole, over the in-memory table: each request is counted,
//! carried out against the table and answered.

use vstd::prelude::*;
use crate::counters::{recorded, RequestCounters};
use crate::envelope::{Endpoint, HttpReply, HttpReplyView};
use crate::login;
use crate::register;
use crate::register::{RegisterStep, RegisterStepView};
use crate::store::{lookup, UserTable};
use crate::user::{LoginRequest, RegisterRequest, UserView};

verus! {

/// The reply to the registration `request` on a table that holds `rows`.
pub open spec fn register_reply(rows: Seq<UserView>, request: UserView) -> HttpReplyView {
    match register::step_after_lookup(request, lookup(rows, request.email)) {
        RegisterStepView::Insert(_) => register::reply_after_insert(request, Ok(())),
        RegisterStepView::Reply(reply) => reply,
    }
}

/// The rows of the table after the registration `request`, where it held
/// `rows` before: one more row where the email was free, else the same rows.
pub open spec fn rows_after_register(rows: Seq<UserView>, request: UserView) -> Seq<UserView> {
    match register::step_after_lookup(request, lookup(rows, request.email)) {
        RegisterStepView::Insert(row) => rows.push(row),
        RegisterStepView::Reply(_) => rows,
    }
}

/// The reply to a login for `email` on a table that holds `rows`.
pub open spec fn login_reply(rows: Seq<UserView>, email: Seq<char>) -> HttpReplyView {
    login::reply_after_lookup(email, lookup(rows, email))
}

/// The state of the service: the table and the two request counters.
#[derive(Clone, Debug)]
pub struct Service {
    table: UserTable,
    counters: RequestCounters,
}

impl Service {
    /// A service with an empty table and both counters at zero.
    pub fn new() -> (service: Service)
        ensures
            service.rows() == Seq::<UserView>::empty(),
            service.counters() == (RequestCounters { register_requests: 0, login_requests: 0 }),
    {
        Service { table: UserTable::new(), counters: RequestCounters::new() }
    }

    /// A service that starts with the rows of `table` and both counters at
    /// zero.
    pub fn with_table(table: UserTable) -> (service: Service)
        ensures
            service.rows() == table@,
            service.counters() == (RequestCounters { register_requests: 0, login_requests: 0 }),
    {
        Service { table, counters: RequestCounters::new() }
    }

    /// The rows of the table.
    pub closed spec fn rows(&self) -> Seq<UserView> {
        self.table@
    }

    /// The request counters.
    pub closed spec fn counters(&self) -> RequestCounters {
        self.counters
    }

    /// Handles a registration. The request is counted before anything else,
    /// whatever its outcome. Then the table is searched for the email: a row
    /// that has it is reported as a conflict and the table stays as it is;
    /// where none has it, the submitted row is appended and echoed.
    pub fn register_user(&mut self, request: &RegisterRequest) -> (reply: HttpReply)
        ensures
            reply@ == register_reply(old(self).rows(), request@),
            final(self).rows() == rows_after_register(old(self).rows(), request@),
            final(self).counters() == recorded(old(self).counters(), Endpoint::Register),
    {
        self.counters.record(Endpoint::Register);
        let found = self.table.find_by_email(&request.email);
        match register::after_lookup(request, found) {
            RegisterStep::Insert(row) => {
                self.table.insert(row);
                register::after_insert(request, Ok(()))
            },
            RegisterStep::Reply(reply) => reply,
        }
    }

    /// Handles a login. The request is counted before anything else, whatever
    /// its outcome. Then the table is searched for the email, and the reply
    /// reports the row that has it, or that there is none. The table is only
    /// read.
    pub fn login_user(&mut self, request: &LoginRequest) -> (reply: HttpReply)
        ensures
            reply@ == login_reply(old(self).rows(), request@),
            final(self).rows() == old(self).rows(),
            final(self).counters() == recorded(old(self).counters(), Endpoint::Login),
    {
        self.counters.record(Endpoint::Login);
        let found = self.table.find_by_email(&request.email);
        login::after_lookup(request, found)
    }

    /// The current values of the two counters. Reading them changes nothing.
    pub fn metrics(&self) -> (counters: RequestCounters)
        ensures
            counters == self.counters(),
    {
        self.counters
    }

    /// The number of rows in the table.
    pub fn user_count(&self) -> (n: usize)
        ensures
            n == self.rows().len(),
    {
        self.table.len()
    }
}

} // verus!
