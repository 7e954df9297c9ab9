//! The user operations: create, delete, fetch one, list.
//!
//! Each operation is a statement plus a reading of what the executable
//! context reported for it. The readings (`create_outcome`, `delete_outcome`,
//! `get_outcome`, `list_outcome`) hold the error policy and depend on nothing
//! but the report, so they serve any context: a caller that talks to a
//! database server runs the statement itself, on a pooled connection or inside
//! a transaction it commits or rolls back as it sees fit, and hands the report
//! over. `create_user`, `delete_user`, `get_user` and `list_users` do the same
//! against the in-memory table.

use crate::db::statement::{reply_view, Command, Failure, FailureView, Query};
use crate::db::table::{
    distinct_usernames, has_user, lemma_absent, lemma_present, matching, without, duplicate_key,
    UserTable,
};
use crate::models::user::{User, UserRecord};
use vstd::prelude::*;

verus! {

/// A persistence error as contracts see it.
pub enum ErrorView {
    Conflict(Seq<char>),
    NotFound,
    StorageFailure(Seq<char>),
}

/// Why a user operation failed.
#[derive(Debug)]
pub enum Error {
    /// A create met a username that is already stored. Holds the store's
    /// diagnostic.
    Conflict(String),
    /// A delete named a username that is not stored.
    NotFound,
    /// Any other failure of the store. Holds the store's diagnostic.
    StorageFailure(String),
}

impl View for Error {
    type V = ErrorView;

    open spec fn view(&self) -> ErrorView {
        match self {
            Error::Conflict(message) => ErrorView::Conflict(message@),
            Error::NotFound => ErrorView::NotFound,
            Error::StorageFailure(message) => ErrorView::StorageFailure(message@),
        }
    }
}

impl ErrorView {
    /// The human-readable diagnostic: the store's own text where the store
    /// failed, a fixed sentence for a missing row.
    pub open spec fn message(self) -> Seq<char> {
        match self {
            ErrorView::Conflict(message) => message,
            ErrorView::NotFound => "no row matched the given username"@,
            ErrorView::StorageFailure(message) => message,
        }
    }
}

impl Error {
    /// The human-readable diagnostic of this error.
    pub fn message(&self) -> (text: String)
        ensures
            text@ == self@.message(),
    {
        match self {
            Error::Conflict(message) => message.clone(),
            Error::NotFound => "no row matched the given username".to_owned(),
            Error::StorageFailure(message) => message.clone(),
        }
    }
}

/// The outcome of an operation as contracts see it: the value by its deep
/// view, the error by its view.
pub open spec fn outcome_view<T: DeepView>(outcome: Result<T, Error>) -> Result<T::V, ErrorView> {
    match outcome {
        Ok(value) => Ok(value.deep_view()),
        Err(error) => Err(error@),
    }
}

/// How a create reads the report on its insert: any report of success is
/// success, a unique-constraint violation is a conflict, every other failure
/// is a storage failure. The diagnostic is carried over.
pub open spec fn spec_create_outcome(reply: Result<u64, FailureView>) -> Result<(), ErrorView> {
    match reply {
        Ok(_) => Ok(()),
        Err(failure) => if failure.is_unique_violation() {
            Err(ErrorView::Conflict(failure.message))
        } else {
            Err(ErrorView::StorageFailure(failure.message))
        },
    }
}

/// How a delete reads the report on its statement: no row affected means the
/// user was not there, any failure is a storage failure.
pub open spec fn spec_delete_outcome(reply: Result<u64, FailureView>) -> Result<(), ErrorView> {
    match reply {
        Ok(affected) => if affected == 0 {
            Err(ErrorView::NotFound)
        } else {
            Ok(())
        },
        Err(failure) => Err(ErrorView::StorageFailure(failure.message)),
    }
}

/// How a fetch reads the report on its query: rows come through untouched,
/// absent or empty included, and any failure is a storage failure.
pub open spec fn spec_fetch_outcome<V>(reply: Result<V, FailureView>) -> Result<V, ErrorView> {
    match reply {
        Ok(found) => Ok(found),
        Err(failure) => Err(ErrorView::StorageFailure(failure.message)),
    }
}

/// The statement a create runs: an insert of all four fields.
pub fn create_statement(user: &User) -> (command: Command)
    ensures
        command matches Command::InsertUser(row) && row@ == user@,
{
    Command::InsertUser(user.clone())
}

/// Reads the report on a create's insert.
pub fn create_outcome(reply: Result<u64, Failure>) -> (outcome: Result<(), Error>)
    ensures
        outcome_view(outcome) == spec_create_outcome(reply_view(reply)),
{
    match reply {
        Ok(_) => Ok(()),
        Err(failure) => {
            if failure.is_unique_violation() {
                Err(Error::Conflict(failure.message))
            } else {
                Err(Error::StorageFailure(failure.message))
            }
        },
    }
}

/// The statement a delete runs: remove the row with this username.
pub fn delete_statement(username: &str) -> (command: Command)
    ensures
        command matches Command::DeleteUser(name) && name@ == username@,
{
    Command::DeleteUser(username.to_owned())
}

/// Reads the report on a delete's statement.
pub fn delete_outcome(reply: Result<u64, Failure>) -> (outcome: Result<(), Error>)
    ensures
        outcome_view(outcome) == spec_delete_outcome(reply_view(reply)),
{
    match reply {
        Ok(affected) => {
            if affected == 0 {
                Err(Error::NotFound)
            } else {
                Ok(())
            }
        },
        Err(failure) => Err(Error::StorageFailure(failure.message)),
    }
}

/// The query a fetch of one user runs: the row with this username.
pub fn get_statement(username: &str) -> (query: Query)
    ensures
        query matches Query::UserByName(name) && name@ == username@,
{
    Query::UserByName(username.to_owned())
}

/// Reads the report on a fetch of one user. A missing row is a normal
/// outcome, not an error.
pub fn get_outcome(reply: Result<Option<User>, Failure>) -> (outcome: Result<Option<User>, Error>)
    ensures
        outcome_view(outcome) == spec_fetch_outcome(reply_view(reply)),
{
    match reply {
        Ok(found) => Ok(found),
        Err(failure) => Err(Error::StorageFailure(failure.message)),
    }
}

/// The query a list runs: every row.
pub fn list_statement() -> (query: Query)
    ensures
        query == Query::AllUsers,
{
    Query::AllUsers
}

/// Reads the report on a list. The rows keep the order the store gave them.
pub fn list_outcome(reply: Result<Vec<User>, Failure>) -> (outcome: Result<Vec<User>, Error>)
    ensures
        outcome_view(outcome) == spec_fetch_outcome(reply_view(reply)),
{
    match reply {
        Ok(found) => Ok(found),
        Err(failure) => Err(Error::StorageFailure(failure.message)),
    }
}

/// The table after a create: the user appended, unless the username was
/// taken, in which case nothing changed.
pub open spec fn rows_after_create(rows: Seq<UserRecord>, user: UserRecord) -> Seq<UserRecord> {
    if has_user(rows, user.username) {
        rows
    } else {
        rows.push(user)
    }
}

/// What a create returns on a table: a conflict if the username was taken,
/// success otherwise.
pub open spec fn spec_create_user(rows: Seq<UserRecord>, user: UserRecord) -> Result<
    (),
    ErrorView,
> {
    if has_user(rows, user.username) {
        Err(ErrorView::Conflict(duplicate_key().message))
    } else {
        Ok(())
    }
}

/// The table after a delete: the same rows without the one that carried the
/// username.
pub open spec fn rows_after_delete(rows: Seq<UserRecord>, username: Seq<char>) -> Seq<
    UserRecord,
> {
    without(rows, username)
}

/// What a delete returns on a table: success if the username was stored,
/// `NotFound` otherwise.
pub open spec fn spec_delete_user(rows: Seq<UserRecord>, username: Seq<char>) -> Result<
    (),
    ErrorView,
> {
    if has_user(rows, username) {
        Ok(())
    } else {
        Err(ErrorView::NotFound)
    }
}

/// What a fetch of one user returns on a table: the row that carries the
/// username, or nothing. Never an error.
pub open spec fn spec_get_user(rows: Seq<UserRecord>, username: Seq<char>) -> Result<
    Option<UserRecord>,
    ErrorView,
> {
    if has_user(rows, username) {
        Ok(Some(matching(rows, username)[0]))
    } else {
        Ok(None)
    }
}

/// Stores a new user.
///
/// Fails with `Conflict` exactly when the username is already stored, and
/// then leaves the table as it was.
pub fn create_user(executor: &mut UserTable, user: &User) -> (outcome: Result<(), Error>)
    ensures
        outcome_view(outcome) == spec_create_user(old(executor)@, user@),
        final(executor)@ == rows_after_create(old(executor)@, user@),
        distinct_usernames(final(executor)@),
{
    let command = create_statement(user);
    create_outcome(executor.execute(&command))
}

/// Removes the user with this username.
///
/// Fails with `NotFound` exactly when no such user is stored.
pub fn delete_user(executor: &mut UserTable, username: &str) -> (outcome: Result<(), Error>)
    ensures
        outcome_view(outcome) == spec_delete_user(old(executor)@, username@),
        final(executor)@ == rows_after_delete(old(executor)@, username@),
        distinct_usernames(final(executor)@),
{
    let command = delete_statement(username);
    let reply = executor.execute(&command);
    proof {
        lemma_match_count(old(executor)@, username@);
    }
    delete_outcome(reply)
}

/// Fetches the user with this username, if there is one. The table is only
/// read.
pub fn get_user(executor: &UserTable, username: &str) -> (outcome: Result<Option<User>, Error>)
    ensures
        outcome_view(outcome) == spec_get_user(executor@, username@),
{
    let query = get_statement(username);
    let reply = executor.fetch_optional(&query);
    proof {
        lemma_match_count(executor@, username@);
    }
    get_outcome(reply)
}

/// Fetches every user, in storage order. The table is only read.
pub fn list_users(executor: &UserTable) -> (outcome: Result<Vec<User>, Error>)
    ensures
        outcome_view(outcome) == Ok::<Seq<UserRecord>, ErrorView>(executor@),
{
    let query = list_statement();
    list_outcome(executor.fetch_all(&query))
}

/// Removing a username leaves no row that carries it.
pub proof fn lemma_removed_is_absent(rows: Seq<UserRecord>, username: Seq<char>)
    ensures
        !has_user(without(rows, username), username),
    decreases rows.len(),
{
    if rows.len() > 0 {
        lemma_removed_is_absent(rows.drop_last(), username);
    }
}

/// Creating a user whose username is not yet stored succeeds, and a fetch of
/// that username afterwards returns the user with every field as it was
/// given.
pub proof fn created_user_is_retrievable(rows: Seq<UserRecord>, user: UserRecord)
    requires
        !has_user(rows, user.username),
    ensures
        spec_create_user(rows, user) == Ok::<(), ErrorView>(()),
        spec_get_user(rows_after_create(rows, user), user.username) == Ok::<
            Option<UserRecord>,
            ErrorView,
        >(Some(user)),
{
    let stored = rows.push(user);
    assert(stored.drop_last() =~= rows);
    lemma_absent(rows, user.username);
    assert(stored[stored.len() - 1].username == user.username);
}

/// Creating a user whose username is already stored fails with `Conflict`,
/// and the table, the stored user included, is as it was before.
pub proof fn duplicate_create_conflicts(rows: Seq<UserRecord>, user: UserRecord)
    requires
        has_user(rows, user.username),
    ensures
        spec_create_user(rows, user) is Err,
        spec_create_user(rows, user)->Err_0 is Conflict,
        rows_after_create(rows, user) == rows,
        spec_get_user(rows_after_create(rows, user), user.username) == spec_get_user(
            rows,
            user.username,
        ),
{
}

/// Deleting a stored username succeeds once: the delete succeeds, and a
/// second delete of the same username fails with `NotFound`.
pub proof fn delete_succeeds_once(rows: Seq<UserRecord>, username: Seq<char>)
    requires
        has_user(rows, username),
    ensures
        spec_delete_user(rows, username) == Ok::<(), ErrorView>(()),
        spec_delete_user(rows_after_delete(rows, username), username) == Err::<(), ErrorView>(
            ErrorView::NotFound,
        ),
{
    lemma_removed_is_absent(rows, username);
}

/// Deleting a username that is not stored fails with `NotFound` and changes
/// nothing.
pub proof fn delete_of_absent_user_is_not_found(rows: Seq<UserRecord>, username: Seq<char>)
    requires
        !has_user(rows, username),
    ensures
        spec_delete_user(rows, username) == Err::<(), ErrorView>(ErrorView::NotFound),
        rows_after_delete(rows, username) == rows,
{
    lemma_absent(rows, username);
}

/// Fetching a username that is not stored returns nothing, and no error.
pub proof fn get_of_absent_user_is_none(rows: Seq<UserRecord>, username: Seq<char>)
    requires
        !has_user(rows, username),
    ensures
        spec_get_user(rows, username) == Ok::<Option<UserRecord>, ErrorView>(None),
{
}

/// On a table with distinct usernames, a username matches one row if it is
/// stored and none if it is not.
pub proof fn lemma_match_count(rows: Seq<UserRecord>, username: Seq<char>)
    requires
        distinct_usernames(rows),
    ensures
        matching(rows, username).len() == (if has_user(rows, username) {
            1nat
        } else {
            0nat
        }),
{
    if has_user(rows, username) {
        let at = choose|i: int| 0 <= i < rows.len() && (#[trigger] rows[i]).username == username;
        lemma_present(rows, username, at);
    } else {
        lemma_absent(rows, username);
    }
}

} // verus!
