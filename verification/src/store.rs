//! An in-memory `users` table that answers as the database does.
//!
//! The table has no constraints: any row can be appended, also one whose email
//! another row already has. A search by email answers as a statement that may
//! return at most one row: with the row, with nothing, or with a query failure
//! where several rows match.

use vstd::prelude::*;
use crate::error::DbError;
use crate::user::{User, UserView};

verus! {

/// The rows of `rows` whose email is `email`, in their order.
pub open spec fn rows_with_email(rows: Seq<UserView>, email: Seq<char>) -> Seq<UserView> {
    rows.filter(|row: UserView| row.email == email)
}

/// What a search for `email` in `rows` answers: nothing where no row has it,
/// the row where exactly one has it, and a query failure where several have.
pub open spec fn lookup(rows: Seq<UserView>, email: Seq<char>) -> Result<Option<UserView>, DbError> {
    let found = rows_with_email(rows, email);
    if found.len() == 0 {
        Ok(None)
    } else if found.len() == 1 {
        Ok(Some(found[0]))
    } else {
        Err(DbError::QueryFailure)
    }
}

/// No two rows of `rows` have the same email.
pub open spec fn unique_emails(rows: Seq<UserView>) -> bool {
    forall|i: int, j: int| 0 <= i < j < rows.len() ==> rows[i].email != rows[j].email
}

/// The mathematical value of the outcome of a search.
pub open spec fn found_view(found: Result<Option<User>, DbError>) -> Result<Option<UserView>, DbError> {
    match found {
        Ok(Some(user)) => Ok(Some(user@)),
        Ok(None) => Ok(None),
        Err(error) => Err(error),
    }
}

/// Appending a row appends it to the rows with its email and leaves the rows
/// with any other email as they were.
pub proof fn lemma_rows_with_email_push(rows: Seq<UserView>, row: UserView, email: Seq<char>)
    ensures
        rows_with_email(rows.push(row), email) == if row.email == email {
            rows_with_email(rows, email).push(row)
        } else {
            rows_with_email(rows, email)
        },
{
    reveal(Seq::filter);
    assert(rows.push(row).drop_last() =~= rows);
}

/// A prefix of the rows holds no more rows with `email` than all of them.
pub proof fn lemma_rows_with_email_prefix(rows: Seq<UserView>, n: int, email: Seq<char>)
    requires
        0 <= n <= rows.len(),
    ensures
        rows_with_email(rows.take(n), email).len() <= rows_with_email(rows, email).len(),
{
    let pred = |row: UserView| row.email == email;
    Seq::filter_distributes_over_add(rows.take(n), rows.skip(n), pred);
    assert(rows.take(n) + rows.skip(n) =~= rows);
}

/// Every row that a search can return has the email that was searched for,
/// and is one of the rows.
pub proof fn lemma_rows_with_email_members(rows: Seq<UserView>, email: Seq<char>, k: int)
    requires
        0 <= k < rows_with_email(rows, email).len(),
    ensures
        rows_with_email(rows, email)[k].email == email,
        rows.contains(rows_with_email(rows, email)[k]),
    decreases rows.len(),
{
    reveal(Seq::filter);
    if rows.len() > 0 {
        let front = rows.drop_last();
        assert(front.push(rows.last()) =~= rows);
        lemma_rows_with_email_push(front, rows.last(), email);
        if k < rows_with_email(front, email).len() {
            lemma_rows_with_email_members(front, email, k);
            let row = rows_with_email(front, email)[k];
            let i = choose|i: int| 0 <= i < front.len() && front[i] == row;
            assert(rows[i] == row);
        } else {
            assert(rows[rows.len() - 1] == rows.last());
        }
    }
}

/// Where no two rows share an email, at most one row has any given email, so
/// no search fails.
pub proof fn lemma_unique_emails_lookup(rows: Seq<UserView>, email: Seq<char>)
    requires
        unique_emails(rows),
    ensures
        rows_with_email(rows, email).len() <= 1,
        lookup(rows, email) is Ok,
    decreases rows.len(),
{
    reveal(Seq::filter);
    if rows.len() > 0 {
        let front = rows.drop_last();
        assert(front.push(rows.last()) =~= rows);
        assert(unique_emails(front)) by {
            assert forall|i: int, j: int| 0 <= i < j < front.len() implies front[i].email
                != front[j].email by {
                assert(rows[i].email != rows[j].email);
            }
        }
        lemma_unique_emails_lookup(front, email);
        lemma_rows_with_email_push(front, rows.last(), email);
        if rows.last().email == email && rows_with_email(front, email).len() > 0 {
            lemma_rows_with_email_members(front, email, 0);
            let row = rows_with_email(front, email)[0];
            let i = choose|i: int| 0 <= i < front.len() && front[i] == row;
            assert(rows[i].email != rows[rows.len() - 1].email);
        }
    }
}

/// The `users` table, held in memory: its rows in the order of their
/// insertion.
#[derive(Clone, Debug)]
pub struct UserTable {
    rows: Vec<User>,
}

impl View for UserTable {
    type V = Seq<UserView>;

    closed spec fn view(&self) -> Seq<UserView> {
        self.rows@.map_values(|user: User| user@)
    }
}

impl UserTable {
    /// The table without rows.
    pub fn new() -> (table: UserTable)
        ensures
            table@ == Seq::<UserView>::empty(),
    {
        let table = UserTable { rows: Vec::new() };
        assert(table@ =~= Seq::<UserView>::empty());
        table
    }

    /// The number of rows.
    pub fn len(&self) -> (n: usize)
        ensures
            n == self@.len(),
    {
        self.rows.len()
    }

    /// Searches for the row with `email`, as a statement does that may return
    /// at most one row: a second row with that email makes the search fail.
    pub fn find_by_email(&self, email: &String) -> (found: Result<Option<User>, DbError>)
        ensures
            found_view(found) == lookup(self@, email@),
    {
        let ghost rows = self@;
        let mut first: Option<usize> = None;
        let mut i: usize = 0;
        proof {
            reveal(Seq::filter);
            assert(rows.take(0) =~= Seq::<UserView>::empty());
        }
        while i < self.rows.len()
            invariant
                rows == self@,
                rows.len() == self.rows.len(),
                i <= self.rows.len(),
                first is None ==> rows_with_email(rows.take(i as int), email@).len() == 0,
                first matches Some(k) ==> k < i && rows_with_email(rows.take(i as int), email@)
                    == seq![rows[k as int]],
            decreases self.rows.len() - i,
        {
            proof {
                assert(rows.take(i as int + 1) =~= rows.take(i as int).push(rows[i as int]));
                lemma_rows_with_email_push(rows.take(i as int), rows[i as int], email@);
                assert(rows[i as int] == self.rows[i as int]@);
            }
            if self.rows[i].email == *email {
                if first.is_some() {
                    proof {
                        lemma_rows_with_email_prefix(rows, i as int + 1, email@);
                    }
                    return Err(DbError::QueryFailure);
                }
                first = Some(i);
                assert(rows_with_email(rows.take(i as int + 1), email@) =~= seq![rows[i as int]]);
            }
            i += 1;
        }
        assert(rows.take(i as int) =~= rows);
        match first {
            Some(k) => {
                let row = &self.rows[k];
                Ok(Some(User::new(row.name.clone(), row.email.clone())))
            },
            None => Ok(None),
        }
    }

    /// Appends a row. Nothing is checked: the table has no constraints.
    pub fn insert(&mut self, user: User)
        ensures
            final(self)@ == old(self)@.push(user@),
    {
        self.rows.push(user);
        assert(self@ =~= old(self)@.push(user@));
    }
}

} // verus!
