//! The handlers of `/users`: create, delete, list.
//!
//! Each handler is a persistence operation followed by a mapping from its
//! outcome to a response. The mappings (`add_user_response`,
//! `delete_user_response`, `get_users_response`) depend on nothing but the
//! outcome; `add_user_handler`, `delete_user_handler` and `get_users_handler`
//! run the whole request against the in-memory table.

use crate::db::table::{distinct_usernames, has_user, UserTable};
use crate::db::users::{
    create_user, created_user_is_retrievable, delete_succeeds_once, delete_user, list_users,
    outcome_view, rows_after_create, rows_after_delete, spec_create_user, spec_delete_user,
    spec_get_user, Error, ErrorView,
};
use crate::handlers::response::{
    text_response, Body, BodyView, Response, ResponseView, CREATED, INTERNAL_SERVER_ERROR,
    NOT_FOUND, OK,
};
use crate::models::user::{User, UserRecord};
use vstd::prelude::*;

verus! {

/// The payload of a create request. Only `username` is required.
#[derive(Debug)]
pub struct CreateUserRequest {
    pub username: String,
    pub first_name: Option<String>,
    pub last_name: Option<String>,
    pub role: Option<String>,
}

/// The payload of a delete request.
#[derive(Debug)]
pub struct DeleteUserRequest {
    pub username: String,
}

/// The text of an optional field, or the given default where it is absent.
pub open spec fn text_or(field: Option<String>, default: Seq<char>) -> Seq<char> {
    match field {
        Some(text) => text@,
        None => default,
    }
}

/// The user a create request asks for: the names default to the empty
/// string, the role to `user`.
pub open spec fn spec_user_from_request(payload: CreateUserRequest) -> UserRecord {
    UserRecord {
        username: payload.username@,
        first_name: text_or(payload.first_name, Seq::empty()),
        last_name: text_or(payload.last_name, Seq::empty()),
        role: text_or(payload.role, "user"@),
    }
}

/// Builds the user a create request asks for, filling in the defaults.
pub fn user_from_request(payload: CreateUserRequest) -> (user: User)
    ensures
        user@ == spec_user_from_request(payload),
{
    User {
        username: payload.username,
        first_name: match payload.first_name {
            Some(text) => text,
            None => String::new(),
        },
        last_name: match payload.last_name {
            Some(text) => text,
            None => String::new(),
        },
        role: match payload.role {
            Some(text) => text,
            None => "user".to_owned(),
        },
    }
}

/// The answer to a create: 201 on success, 500 with the diagnostic on any
/// error. A conflict is not told apart from other failures.
pub open spec fn spec_add_user_response(outcome: Result<(), ErrorView>) -> ResponseView {
    match outcome {
        Ok(_) => text_response(CREATED, "User created"@),
        Err(error) => text_response(INTERNAL_SERVER_ERROR, "DB error: "@ + error.message()),
    }
}

/// The answer to a delete: 200 on success, 404 where the user was not there,
/// 500 with the diagnostic on any other error.
pub open spec fn spec_delete_user_response(outcome: Result<(), ErrorView>) -> ResponseView {
    match outcome {
        Ok(_) => text_response(OK, "User deleted"@),
        Err(ErrorView::NotFound) => text_response(NOT_FOUND, "User not found"@),
        Err(error) => text_response(INTERNAL_SERVER_ERROR, "DB error: "@ + error.message()),
    }
}

/// The answer to a list: 200 with the users on success; on an error the
/// diagnostic as text, still under status 200.
pub open spec fn spec_get_users_response(
    outcome: Result<Seq<UserRecord>, ErrorView>,
) -> ResponseView {
    match outcome {
        Ok(users) => ResponseView { status: OK, body: BodyView::Users(users) },
        Err(error) => text_response(OK, "Database error: "@ + error.message()),
    }
}

/// Maps the outcome of a create to a response.
pub fn add_user_response(outcome: Result<(), Error>) -> (response: Response)
    ensures
        response@ == spec_add_user_response(outcome_view(outcome)),
{
    match outcome {
        Ok(_) => Response::text(CREATED, "User created"),
        Err(error) => {
            let message = error.message();
            Response::diagnostic(INTERNAL_SERVER_ERROR, "DB error: ", message.as_str())
        },
    }
}

/// Maps the outcome of a delete to a response.
pub fn delete_user_response(outcome: Result<(), Error>) -> (response: Response)
    ensures
        response@ == spec_delete_user_response(outcome_view(outcome)),
{
    match outcome {
        Ok(_) => Response::text(OK, "User deleted"),
        Err(Error::NotFound) => Response::text(NOT_FOUND, "User not found"),
        Err(error) => {
            let message = error.message();
            Response::diagnostic(INTERNAL_SERVER_ERROR, "DB error: ", message.as_str())
        },
    }
}

/// Maps the outcome of a list to a response.
pub fn get_users_response(outcome: Result<Vec<User>, Error>) -> (response: Response)
    ensures
        response@ == spec_get_users_response(outcome_view(outcome)),
{
    match outcome {
        Ok(users) => Response { status: OK, body: Body::Users(users) },
        Err(error) => {
            let message = error.message();
            Response::diagnostic(OK, "Database error: ", message.as_str())
        },
    }
}

/// Handles a create request: builds the user with the defaults filled in,
/// stores it, and answers 201, or 500 where the username was taken.
pub fn add_user_handler(state: &mut UserTable, payload: CreateUserRequest) -> (response: Response)
    ensures
        response@ == spec_add_user_response(
            spec_create_user(old(state)@, spec_user_from_request(payload)),
        ),
        final(state)@ == rows_after_create(old(state)@, spec_user_from_request(payload)),
        distinct_usernames(final(state)@),
{
    let user = user_from_request(payload);
    add_user_response(create_user(state, &user))
}

/// Handles a delete request: removes the user and answers 200, or 404 where
/// no such user was stored.
pub fn delete_user_handler(state: &mut UserTable, payload: DeleteUserRequest) -> (response:
    Response)
    ensures
        response@ == spec_delete_user_response(spec_delete_user(old(state)@, payload.username@)),
        final(state)@ == rows_after_delete(old(state)@, payload.username@),
        distinct_usernames(final(state)@),
{
    delete_user_response(delete_user(state, payload.username.as_str()))
}

/// Handles a list request: answers 200 with every stored user, in storage
/// order.
pub fn get_users_handler(state: &UserTable) -> (response: Response)
    ensures
        response@ == (ResponseView { status: OK, body: BodyView::Users(state@) }),
{
    get_users_response(list_users(state))
}

/// A create request that gives only a username, for a username not yet
/// stored, stores a user with empty names and the role `user`.
pub proof fn minimal_request_stores_defaults(rows: Seq<UserRecord>, payload: CreateUserRequest)
    requires
        payload.first_name is None,
        payload.last_name is None,
        payload.role is None,
        !has_user(rows, payload.username@),
    ensures
        spec_get_user(
            rows_after_create(rows, spec_user_from_request(payload)),
            payload.username@,
        ) == Ok::<Option<UserRecord>, ErrorView>(
            Some(
                UserRecord {
                    username: payload.username@,
                    first_name: Seq::empty(),
                    last_name: Seq::empty(),
                    role: "user"@,
                },
            ),
        ),
{
    created_user_is_retrievable(rows, spec_user_from_request(payload));
}

/// For a username not yet stored: a create answers 201 and the user is the
/// newest row of the table; a delete of that username then answers 200, and
/// a second delete answers 404.
pub proof fn create_then_delete_twice(rows: Seq<UserRecord>, payload: CreateUserRequest)
    requires
        !has_user(rows, payload.username@),
    ensures
        ({
            let user = spec_user_from_request(payload);
            let stored = rows_after_create(rows, user);
            let emptied = rows_after_delete(stored, user.username);
            &&& spec_add_user_response(spec_create_user(rows, user)) == text_response(
                CREATED,
                "User created"@,
            )
            &&& stored.len() == rows.len() + 1
            &&& stored.last() == user
            &&& spec_delete_user_response(spec_delete_user(stored, user.username))
                == text_response(OK, "User deleted"@)
            &&& spec_delete_user_response(spec_delete_user(emptied, user.username))
                == text_response(NOT_FOUND, "User not found"@)
        }),
{
    let user = spec_user_from_request(payload);
    let stored = rows_after_create(rows, user);
    assert(stored[stored.len() - 1].username == user.username);
    delete_succeeds_once(stored, user.username);
}

/// For a username not yet stored: a create answers 201, and a second create
/// of the same username answers 500 and leaves the table as the first one
/// left it.
pub proof fn create_twice_fails(
    rows: Seq<UserRecord>,
    first: CreateUserRequest,
    second: CreateUserRequest,
)
    requires
        !has_user(rows, first.username@),
        second.username@ == first.username@,
    ensures
        ({
            let stored = rows_after_create(rows, spec_user_from_request(first));
            &&& spec_add_user_response(spec_create_user(rows, spec_user_from_request(first))).status
                == CREATED
            &&& spec_add_user_response(
                spec_create_user(stored, spec_user_from_request(second)),
            ).status == INTERNAL_SERVER_ERROR
            &&& rows_after_create(stored, spec_user_from_request(second)) == stored
        }),
{
    let user = spec_user_from_request(first);
    let stored = rows_after_create(rows, user);
    assert(stored[stored.len() - 1].username == user.username);
}

} // verus!
