//! An in-memory `users` table with a unique key on `username`.
//!
//! It runs the same statements a database server would be sent and reports
//! what such a store reports: rows affected, rows returned, or a failure with
//! the store's code for a duplicate key. It is the executable context to use
//! where no server is at hand, and the model against which the behaviour of
//! the user operations is stated.

use crate::db::statement::{
    reply_view, Command, Failure, FailureView, Query, UNIQUE_VIOLATION,
};
use crate::models::user::{User, UserRecord};
use vstd::prelude::*;

verus! {

/// Some row carries this username.
pub open spec fn has_user(rows: Seq<UserRecord>, username: Seq<char>) -> bool {
    exists|i: int| 0 <= i < rows.len() && (#[trigger] rows[i]).username == username
}

/// No two rows carry the same username.
pub open spec fn distinct_usernames(rows: Seq<UserRecord>) -> bool {
    forall|i: int, j: int|
        0 <= i < j < rows.len() ==> (#[trigger] rows[i]).username != (#[trigger] rows[j]).username
}

/// The rows that carry this username, in storage order.
pub open spec fn matching(rows: Seq<UserRecord>, username: Seq<char>) -> Seq<UserRecord>
    decreases rows.len(),
{
    if rows.len() == 0 {
        Seq::empty()
    } else if rows.last().username == username {
        matching(rows.drop_last(), username).push(rows.last())
    } else {
        matching(rows.drop_last(), username)
    }
}

/// The rows that do not carry this username, in storage order.
pub open spec fn without(rows: Seq<UserRecord>, username: Seq<char>) -> Seq<UserRecord>
    decreases rows.len(),
{
    if rows.len() == 0 {
        Seq::empty()
    } else if rows.last().username == username {
        without(rows.drop_last(), username)
    } else {
        without(rows.drop_last(), username).push(rows.last())
    }
}

/// The failure a store reports when an insert meets a key that is taken.
pub open spec fn duplicate_key() -> FailureView {
    FailureView {
        sqlstate: Some(UNIQUE_VIOLATION@),
        message: "duplicate key value violates unique constraint \"users_username_key\""@,
    }
}

/// The table after a command has run.
///
/// An insert appends the row unless its username is taken, in which case
/// nothing changes. A delete drops every row with the given username.
pub open spec fn rows_after(rows: Seq<UserRecord>, command: Command) -> Seq<UserRecord> {
    match command {
        Command::InsertUser(user) => if has_user(rows, user@.username) {
            rows
        } else {
            rows.push(user@)
        },
        Command::DeleteUser(username) => without(rows, username@),
    }
}

/// What the table reports for a command: the number of rows it affected, or
/// the duplicate-key failure.
pub open spec fn command_reply(rows: Seq<UserRecord>, command: Command) -> Result<
    u64,
    FailureView,
> {
    match command {
        Command::InsertUser(user) => if has_user(rows, user@.username) {
            Err(duplicate_key())
        } else {
            Ok(1u64)
        },
        Command::DeleteUser(username) => Ok(matching(rows, username@).len() as u64),
    }
}

/// The rows a query returns, in storage order.
pub open spec fn rows_returned(rows: Seq<UserRecord>, query: Query) -> Seq<UserRecord> {
    match query {
        Query::UserByName(username) => matching(rows, username@),
        Query::AllUsers => rows,
    }
}

/// The first of the rows a query returns, if it returns any.
pub open spec fn first_row_returned(rows: Seq<UserRecord>, query: Query) -> Option<UserRecord> {
    let found = rows_returned(rows, query);
    if found.len() == 0 {
        None
    } else {
        Some(found[0])
    }
}

/// Where no row carries the username, nothing matches it and removing it
/// changes nothing.
pub proof fn lemma_absent(rows: Seq<UserRecord>, username: Seq<char>)
    requires
        !has_user(rows, username),
    ensures
        matching(rows, username) == Seq::<UserRecord>::empty(),
        without(rows, username) == rows,
    decreases rows.len(),
{
    if rows.len() > 0 {
        let front = rows.drop_last();
        assert(rows[rows.len() - 1].username != username);
        assert forall|i: int| 0 <= i < front.len() implies (#[trigger] front[i]).username
            != username by {
            assert(front[i] == rows[i]);
        }
        lemma_absent(front, username);
        assert(front.push(rows.last()) =~= rows);
    } else {
        assert(rows =~= Seq::<UserRecord>::empty());
    }
}

/// Where usernames are distinct and row `at` carries the username, that row
/// is the only match, and removing the username removes exactly that row.
pub proof fn lemma_present(rows: Seq<UserRecord>, username: Seq<char>, at: int)
    requires
        distinct_usernames(rows),
        0 <= at < rows.len(),
        rows[at].username == username,
    ensures
        matching(rows, username) == seq![rows[at]],
        without(rows, username) == rows.remove(at),
    decreases rows.len(),
{
    let front = rows.drop_last();
    let last = rows.len() - 1;
    assert forall|i: int, j: int| 0 <= i < j < front.len() implies (#[trigger] front[i]).username
        != (#[trigger] front[j]).username by {
        assert(front[i] == rows[i] && front[j] == rows[j]);
    }
    if at == last {
        assert forall|i: int| 0 <= i < front.len() implies (#[trigger] front[i]).username
            != username by {
            assert(front[i] == rows[i]);
        }
        lemma_absent(front, username);
        assert(Seq::<UserRecord>::empty().push(rows.last()) =~= seq![rows[at]]);
        assert(front =~= rows.remove(at));
    } else {
        assert(rows[at].username != rows[last].username);
        assert(front[at] == rows[at]);
        lemma_present(front, username, at);
        assert(front.remove(at).push(rows.last()) =~= rows.remove(at));
    }
}

/// An in-memory `users` table. No two of its rows share a username.
pub struct UserTable {
    rows: Vec<User>,
}

impl View for UserTable {
    type V = Seq<UserRecord>;

    /// The rows in storage order, oldest first.
    closed spec fn view(&self) -> Seq<UserRecord> {
        self.rows.deep_view()
    }
}

impl UserTable {
    #[verifier::type_invariant]
    spec fn unique_key(&self) -> bool {
        distinct_usernames(self.rows.deep_view())
    }

    /// An empty table.
    pub fn new() -> (table: Self)
        ensures
            table@ == Seq::<UserRecord>::empty(),
            distinct_usernames(table@),
    {
        let table = UserTable { rows: Vec::new() };
        assert(table.rows.deep_view() =~= Seq::<UserRecord>::empty());
        table
    }

    /// Moves the rows out, leaving the table empty.
    fn take_rows(&mut self) -> (rows: Vec<User>)
        ensures
            rows.deep_view() == old(self)@,
            final(self)@ == Seq::<UserRecord>::empty(),
    {
        let mut taken = UserTable::new();
        std::mem::swap(self, &mut taken);
        taken.rows
    }

    /// The index of the row that carries the username, if there is one.
    fn position(&self, username: &String) -> (found: Option<usize>)
        ensures
            match found {
                Some(at) => at < self@.len() && self@[at as int].username == username@,
                None => !has_user(self@, username@),
            },
    {
        let mut at: usize = 0;
        while at < self.rows.len()
            invariant
                at <= self.rows.len(),
                forall|i: int| 0 <= i < at ==> (#[trigger] self@[i]).username != username@,
            decreases self.rows.len() - at,
        {
            if self.rows[at].username == *username {
                return Some(at);
            }
            at += 1;
        }
        None
    }

    /// Runs a command and reports the number of rows it affected.
    ///
    /// An insert whose username is taken fails with the duplicate-key failure
    /// and leaves the table as it was. Nothing else fails.
    pub fn execute(&mut self, command: &Command) -> (reply: Result<u64, Failure>)
        ensures
            final(self)@ == rows_after(old(self)@, *command),
            reply_view(reply) == command_reply(old(self)@, *command),
            distinct_usernames(old(self)@),
            distinct_usernames(final(self)@),
    {
        proof {
            use_type_invariant(&*self);
        }
        match command {
            Command::InsertUser(user) => {
                match self.position(&user.username) {
                    Some(_) => Err(
                        Failure {
                            sqlstate: Some(UNIQUE_VIOLATION.to_owned()),
                            message:
                                "duplicate key value violates unique constraint \"users_username_key\"".to_owned(),
                        },
                    ),
                    None => {
                        let mut rows = self.take_rows();
                        rows.push(user.clone());
                        assert(rows.deep_view() =~= old(self).rows.deep_view().push(user@));
                        *self = UserTable { rows };
                        Ok(1)
                    },
                }
            },
            Command::DeleteUser(username) => {
                match self.position(username) {
                    Some(at) => {
                        proof {
                            lemma_present(self@, username@, at as int);
                        }
                        let mut rows = self.take_rows();
                        rows.remove(at);
                        assert(rows.deep_view() =~= old(self).rows.deep_view().remove(at as int));
                        *self = UserTable { rows };
                        Ok(1)
                    },
                    None => {
                        proof {
                            lemma_absent(self@, username@);
                        }
                        Ok(0)
                    },
                }
            },
        }
    }

    /// Runs a query and reports every row it returned, in storage order.
    /// It never fails.
    pub fn fetch_all(&self, query: &Query) -> (reply: Result<Vec<User>, Failure>)
        ensures
            reply_view(reply) == Ok::<Seq<UserRecord>, FailureView>(rows_returned(self@, *query)),
            distinct_usernames(self@),
    {
        proof {
            use_type_invariant(self);
        }
        let mut found: Vec<User> = Vec::new();
        match query {
            Query::UserByName(username) => {
                match self.position(username) {
                    Some(at) => {
                        proof {
                            lemma_present(self@, username@, at as int);
                        }
                        found.push(self.rows[at].clone());
                        assert(found.deep_view() =~= seq![self@[at as int]]);
                    },
                    None => {
                        proof {
                            lemma_absent(self@, username@);
                        }
                        assert(found.deep_view() =~= Seq::<UserRecord>::empty());
                    },
                }
            },
            Query::AllUsers => {
                let mut at: usize = 0;
                while at < self.rows.len()
                    invariant
                        at <= self.rows.len(),
                        found.deep_view() == self@.take(at as int),
                    decreases self.rows.len() - at,
                {
                    let ghost before = found.deep_view();
                    found.push(self.rows[at].clone());
                    assert(found.deep_view() =~= before.push(self@[at as int]));
                    assert(self@.take(at + 1) =~= self@.take(at as int).push(self@[at as int]));
                    at += 1;
                }
                assert(self@.take(at as int) =~= self@);
            },
        }
        Ok(found)
    }

    /// Runs a query and reports the first row it returned, if any.
    /// It never fails.
    pub fn fetch_optional(&self, query: &Query) -> (reply: Result<Option<User>, Failure>)
        ensures
            reply_view(reply) == Ok::<Option<UserRecord>, FailureView>(
                first_row_returned(self@, *query),
            ),
            distinct_usernames(self@),
    {
        proof {
            use_type_invariant(self);
        }
        match query {
            Query::UserByName(username) => {
                match self.position(username) {
                    Some(at) => {
                        proof {
                            lemma_present(self@, username@, at as int);
                        }
                        Ok(Some(self.rows[at].clone()))
                    },
                    None => {
                        proof {
                            lemma_absent(self@, username@);
                        }
                        Ok(None)
                    },
                }
            },
            Query::AllUsers => {
                if self.rows.len() == 0 {
                    Ok(None)
                } else {
                    Ok(Some(self.rows[0].clone()))
                }
            },
        }
    }
}

} // verus!
