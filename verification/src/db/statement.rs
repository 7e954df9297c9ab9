//! What the operations hand to an executable context, and what a context
//! hands back when a statement could not be run.

use crate::models::user::User;
use vstd::prelude::*;

verus! {

/// A statement that changes the table. A context reports the number of rows
/// it affected.
pub enum Command {
    /// Insert one row holding all four fields of the user.
    InsertUser(User),
    /// Delete the row whose `username` equals the given name.
    DeleteUser(String),
}

/// A statement that only reads. A context reports the rows it returned.
pub enum Query {
    /// The row whose `username` equals the given name, if there is one.
    UserByName(String),
    /// Every row, in storage order.
    AllUsers,
}

impl Command {
    /// The statement text, with `$1`, `$2`, ... for the bound parameters.
    pub open spec fn spec_sql(&self) -> Seq<char> {
        match self {
            Command::InsertUser(_) =>
                "INSERT INTO users (username, first_name, last_name, role) VALUES ($1, $2, $3, $4)"@,
            Command::DeleteUser(_) => "DELETE FROM users WHERE username = $1"@,
        }
    }

    /// The values bound to `$1`, `$2`, ..., in that order.
    pub open spec fn spec_parameters(&self) -> Seq<Seq<char>> {
        match self {
            Command::InsertUser(user) => seq![
                user.username@,
                user.first_name@,
                user.last_name@,
                user.role@,
            ],
            Command::DeleteUser(username) => seq![username@],
        }
    }

    pub fn sql(&self) -> (text: &'static str)
        ensures
            text@ == self.spec_sql(),
    {
        match self {
            Command::InsertUser(_) =>
                "INSERT INTO users (username, first_name, last_name, role) VALUES ($1, $2, $3, $4)",
            Command::DeleteUser(_) => "DELETE FROM users WHERE username = $1",
        }
    }

    pub fn parameters(&self) -> (values: Vec<String>)
        ensures
            values.deep_view() == self.spec_parameters(),
    {
        let mut values: Vec<String> = Vec::new();
        match self {
            Command::InsertUser(user) => {
                values.push(user.username.clone());
                values.push(user.first_name.clone());
                values.push(user.last_name.clone());
                values.push(user.role.clone());
            },
            Command::DeleteUser(username) => {
                values.push(username.clone());
            },
        }
        assert(values.deep_view() =~= self.spec_parameters());
        values
    }
}

impl Query {
    /// The statement text, with `$1` for the bound parameter.
    pub open spec fn spec_sql(&self) -> Seq<char> {
        match self {
            Query::UserByName(_) =>
                "SELECT username, first_name, last_name, role FROM users WHERE username = $1"@,
            Query::AllUsers => "SELECT username, first_name, last_name, role FROM users"@,
        }
    }

    /// The values bound to the statement's parameters, in order.
    pub open spec fn spec_parameters(&self) -> Seq<Seq<char>> {
        match self {
            Query::UserByName(username) => seq![username@],
            Query::AllUsers => seq![],
        }
    }

    pub fn sql(&self) -> (text: &'static str)
        ensures
            text@ == self.spec_sql(),
    {
        match self {
            Query::UserByName(_) =>
                "SELECT username, first_name, last_name, role FROM users WHERE username = $1",
            Query::AllUsers => "SELECT username, first_name, last_name, role FROM users",
        }
    }

    pub fn parameters(&self) -> (values: Vec<String>)
        ensures
            values.deep_view() == self.spec_parameters(),
    {
        let mut values: Vec<String> = Vec::new();
        match self {
            Query::UserByName(username) => {
                values.push(username.clone());
            },
            Query::AllUsers => {},
        }
        assert(values.deep_view() =~= self.spec_parameters());
        values
    }
}

/// The SQLSTATE code a store gives when a unique index already holds the key
/// of a row it was asked to insert.
pub const UNIQUE_VIOLATION: &'static str = "23505";

/// A storage-level failure as contracts see it.
pub struct FailureView {
    pub sqlstate: Option<Seq<char>>,
    pub message: Seq<char>,
}

/// Why a context could not run a statement.
///
/// `sqlstate` is the five-character SQLSTATE code where the store gave one
/// (a failure before the store was reached carries none); `message` is the
/// human-readable diagnostic.
#[derive(Debug)]
pub struct Failure {
    pub sqlstate: Option<String>,
    pub message: String,
}

impl View for Failure {
    type V = FailureView;

    open spec fn view(&self) -> FailureView {
        FailureView {
            sqlstate: match self.sqlstate {
                Some(code) => Some(code@),
                None => None,
            },
            message: self.message@,
        }
    }
}

impl FailureView {
    /// The store refused a row because a unique index already holds its key.
    pub open spec fn is_unique_violation(self) -> bool {
        self.sqlstate == Some(UNIQUE_VIOLATION@)
    }
}

impl Failure {
    /// Whether this failure is the store's unique-constraint violation.
    pub fn is_unique_violation(&self) -> (yes: bool)
        ensures
            yes == self@.is_unique_violation(),
    {
        match &self.sqlstate {
            Some(code) => {
                let unique: String = UNIQUE_VIOLATION.to_owned();
                *code == unique
            },
            None => false,
        }
    }
}

/// What a context reported, as contracts see it: the value by its deep view,
/// the failure by its view.
pub open spec fn reply_view<T: DeepView>(reply: Result<T, Failure>) -> Result<T::V, FailureView> {
    match reply {
        Ok(value) => Ok(value.deep_view()),
        Err(failure) => Err(failure@),
    }
}

} // verus!
