//! The single-row user path: a model of the `users` table, the
//! confirmation step of an insert, and the round-trip law.

use vstd::prelude::*;

use crate::models::{user_fields_eq, User};
use crate::outcome::DbError;

verus! {

/// A model of the `users` table: the rows persisted so far, in insertion
/// order.
pub struct UserTable {
    pub rows: Vec<User>,
}

impl UserTable {
    /// An empty table.
    pub fn new() -> (t: UserTable)
        ensures
            t.rows@.len() == 0,
    {
        UserTable { rows: Vec::new() }
    }

    /// Persists one user row at the end of the table.
    pub fn insert(&mut self, u: User)
        ensures
            final(self).rows@ == old(self).rows@.push(u),
    {
        self.rows.push(u);
    }

    /// Reads back the row at position `i`.
    pub fn fetch(&self, i: usize) -> (r: &User)
        requires
            i < self.rows@.len(),
        ensures
            *r == self.rows@[i as int],
    {
        &self.rows[i]
    }

    /// How many rows the table holds.
    pub fn len(&self) -> (n: usize)
        ensures
            n == self.rows@.len(),
    {
        self.rows.len()
    }
}

/// Round trip: inserting a user and immediately reading back the row just
/// written yields a record with identical field values.
pub proof fn lemma_insert_then_read_back(before: UserTable, after: UserTable, u: User)
    requires
        after.rows@ == before.rows@.push(u),
    ensures
        after.rows@.len() == before.rows@.len() + 1,
        user_fields_eq(after.rows@[after.rows@.len() - 1], u),
{
}

/// The confirmation step of a user insert: the statement is executed with
/// a returning clause, so the database hands back the rows it wrote. The
/// last returned row is the created user echoed to the caller; an empty
/// answer means no row was written where one was expected.
pub fn confirm_inserted(returned: Vec<User>) -> (r: Result<User, DbError>)
    ensures
        returned@.len() == 0 ==> r == Result::<User, DbError>::Err(DbError::NotFound),
        returned@.len() > 0 ==> r == Result::<User, DbError>::Ok(returned@.last()),
{
    let mut returned = returned;
    match returned.pop() {
        Some(u) => Ok(u),
        None => Err(DbError::NotFound),
    }
}

} // verus!
