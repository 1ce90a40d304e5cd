//! One request from its arrival to its response.
//!
//! A request is served in two steps at most. `plan` finds the handler and
//! answers at once where the handler needs no storage; otherwise it names
//! the statement to run. The caller runs it, and `answer_listing` or
//! `answer_creation` makes the response of what came back.
use vstd::prelude::*;
use crate::handlers::{
    create_user, created_user, fallback_handler, health_check, is_fallback_answer,
    is_health_answer, is_root_answer, load_users, root, StorageError,
};
use crate::json::{is_plain_text, quoted, user_object_text};
use crate::model::{row_records, CreateUser, UserFromQuery};
use crate::response::{listing_response, user_response, APIError, Response, CREATED};
use crate::router::{Handler, Method, Router};

verus! {

/// What is to be done for a request.
#[derive(Debug, Clone, PartialEq, Eq)]
pub enum Plan {
    /// Send this response.
    Answer(Response),
    /// Query all rows of the table, then call `answer_listing`.
    ListUsers,
    /// Read the body, insert the user, then call `answer_creation`.
    CreateUser,
}

/// Decides what is to be done for a request with this method, this path and
/// this URI. The path is the URI without its query string.
///
/// The table picks the handler. The root, the health check and the fallback
/// answer at once, whatever the state of storage; the fallback names the URI
/// as it was received.
pub fn plan(router: &Router, method: Method, path: &str, uri: &str) -> (plan: Plan)
    ensures
        match router@.handler_for(method, path@) {
            Handler::Root => plan matches Plan::Answer(response) && is_root_answer(response@),
            Handler::HealthCheck => plan matches Plan::Answer(response) && is_health_answer(
                response@,
            ),
            Handler::LoadUsers => plan is ListUsers,
            Handler::CreateUser => plan is CreateUser,
            Handler::Fallback => plan matches Plan::Answer(response) && is_fallback_answer(
                uri@,
                response@,
            ),
        },
{
    match router.dispatch(method, path) {
        Handler::Root => Plan::Answer(root()),
        Handler::HealthCheck => Plan::Answer(health_check()),
        Handler::LoadUsers => Plan::ListUsers,
        Handler::CreateUser => Plan::CreateUser,
        Handler::Fallback => Plan::Answer(fallback_handler(uri)),
    }
}

/// The response to a request that lists the users. `rows` is what the query
/// for all rows of the table gave.
///
/// Rows that came back are listed with status 200, all of them and in their
/// order; without rows the body is `{"users":[]}`. A query that failed gives
/// status 500 and the plain text `something else went wrong`, and nothing of
/// the failure.
pub fn answer_listing(rows: Result<Vec<UserFromQuery>, StorageError>) -> (response: Response)
    ensures
        response@ == match rows {
            Ok(found) => listing_response(row_records(found@)),
            Err(_) => APIError::SomethingElseWentWrong.response(),
        },
        rows matches Ok(found) && found@.len() == 0 ==> response.body@ == "{\"users\":[]}"@,
{
    Response::from_listing(load_users(rows))
}

/// The response to a request that creates a user. `inserted` is what the
/// insert of the payload's name and email gave.
///
/// With an id the response has status 201 and the user as its body: the id,
/// and the name and the email of the payload, unchanged. A failed insert
/// gives status 500 and the plain text `something went wrong`, and nothing
/// of the failure.
pub fn answer_creation(payload: CreateUser, inserted: Result<i64, StorageError>) -> (response:
    Response)
    ensures
        response@ == match inserted {
            Ok(id) => user_response(
                CREATED as int,
                created_user(payload.name@, payload.email@, id as int),
            ),
            Err(_) => APIError::SomethingWentWrong.response(),
        },
        inserted matches Ok(id) ==> (is_plain_text(payload.name@) && is_plain_text(payload.email@)
            ==> response.body@ == user_object_text(
            id as int,
            quoted(payload.name@),
            quoted(payload.email@),
        )),
{
    Response::from_creation(create_user(payload, inserted))
}

} // verus!
