//! The handlers: one function for each route, from what the request and
//! storage gave to what is sent back.
//!
//! A handler that needs storage takes the outcome of its one statement as an
//! argument. The caller runs the statement and hands over what came back.
use vstd::prelude::*;
use vstd::string::*;
use crate::json::{is_plain, is_plain_text, message_object_text, quoted};
use crate::model::{row_records, CreateUser, MultipleUsersResult, User, UserFromQuery, UserRecord};
use crate::response::{
    message_response, APIError, Response, ResponseView, CREATED, NOT_FOUND, OK,
};

verus! {

/// A statement that storage did not carry out, with the text of its error.
/// The text is for the server's log. No response holds it.
#[derive(Debug, Clone, PartialEq, Eq)]
pub struct StorageError {
    pub detail: String,
}

/// The message of the root route.
pub open spec fn root_message() -> Seq<char> {
    "API created as an example of how to use EFS with AWS Lambda and store a SQLite database on it"@
}

/// The message for a request that no route serves: the words `No route for`
/// and the URI as it was received.
pub open spec fn no_route_message(uri: Seq<char>) -> Seq<char> {
    "No route for "@ + uri
}

/// The user that creating one with `name` and `email` gives, once storage has
/// assigned `id`.
pub open spec fn created_user(name: Seq<char>, email: Seq<char>, id: int) -> UserRecord {
    UserRecord { id, name, email }
}

/// The answer of the root route: status 200 and the object whose `message`
/// is the root message.
pub open spec fn is_root_answer(response: ResponseView) -> bool {
    &&& response == message_response(OK as int, root_message())
    &&& response.body == message_object_text(quoted(root_message()))
}

/// The answer of the health check: status 200 and the object whose `message`
/// is `ok`.
pub open spec fn is_health_answer(response: ResponseView) -> bool {
    &&& response == message_response(OK as int, "ok"@)
    &&& response.body == "{\"message\":\"ok\"}"@
}

/// The answer to a request for `uri` that no route serves: status 404 and the
/// object whose `message` names the URI. A URI without quotes, backslashes
/// and control characters stands in the body as it is.
pub open spec fn is_fallback_answer(uri: Seq<char>, response: ResponseView) -> bool {
    &&& response == message_response(NOT_FOUND as int, no_route_message(uri))
    &&& is_plain_text(uri) ==> response.body == "{\"message\":\"No route for "@ + uri + "\"}"@
}

proof fn lemma_root_message_is_plain()
    ensures
        is_plain_text(root_message()),
{
    reveal_strlit(
        "API created as an example of how to use EFS with AWS Lambda and store a SQLite database on it",
    );
    assert forall|i: int| 0 <= i < root_message().len() implies is_plain(
        #[trigger] root_message()[i],
    ) by {}
}

/// Answers the root route: status 200 and a fixed message that describes the
/// service.
pub fn root() -> (response: Response)
    ensures
        is_root_answer(response@),
{
    proof {
        lemma_root_message_is_plain();
    }
    Response::message(
        OK,
        "API created as an example of how to use EFS with AWS Lambda and store a SQLite database on it",
    )
}

/// Answers the health check: status 200 and the message `ok`, whatever the
/// state of storage.
pub fn health_check() -> (response: Response)
    ensures
        is_health_answer(response@),
{
    proof {
        reveal_strlit("ok");
        reveal_strlit("{\"message\":");
        reveal_strlit("}");
        reveal_strlit("{\"message\":\"ok\"}");
        assert(message_object_text(quoted("ok"@)) =~= "{\"message\":\"ok\"}"@);
    }
    Response::message(OK, "ok")
}

/// Answers a request that no route serves: status 404 and a message that
/// names the URI as it was received, query string included.
pub fn fallback_handler(uri: &str) -> (response: Response)
    ensures
        is_fallback_answer(uri@, response@),
{
    let mut message = String::from_str("No route for ");
    message.append(uri);
    proof {
        reveal_strlit("No route for ");
        reveal_strlit("{\"message\":");
        reveal_strlit("}");
        reveal_strlit("{\"message\":\"No route for ");
        reveal_strlit("\"}");
        if is_plain_text(uri@) {
            assert forall|i: int| 0 <= i < message@.len() implies is_plain(
                #[trigger] message@[i],
            ) by {}
            assert(message_object_text(quoted(message@)) =~= "{\"message\":\"No route for "@ + uri@
                + "\"}"@);
        }
    }
    Response::message(NOT_FOUND, message.as_str())
}

/// Lists the users. `rows` is what the query for all rows of the table gave.
///
/// Rows that came back become the listing, one user for each row, in the
/// order of the rows; no row gives an empty listing. A query that failed gives
/// `SomethingElseWentWrong`, whatever the failure was.
pub fn load_users(rows: Result<Vec<UserFromQuery>, StorageError>) -> (outcome: Result<
    MultipleUsersResult,
    APIError,
>)
    ensures
        match rows {
            Ok(found) => outcome matches Ok(listing) && listing@ == row_records(found@),
            Err(_) => outcome matches Err(error) && error == APIError::SomethingElseWentWrong,
        },
{
    match rows {
        Ok(found) => {
            let ghost all = found@;
            let mut users: Vec<User> = Vec::new();
            for row in iter: found
                invariant
                    iter.seq() == all,
                    users@.len() == iter.index(),
                    forall|j: int| 0 <= j < users@.len() ==> (#[trigger] users@[j])@ == all[j]@,
            {
                users.push(row.into_user());
            }
            Ok(MultipleUsersResult { users })
        },
        Err(_) => Err(APIError::SomethingElseWentWrong),
    }
}

/// Creates a user. `inserted` is what the insert of the payload's name and
/// email gave: the id that storage generated, or the failure.
///
/// With an id the outcome is status 201 and the user with that id and with
/// the name and the email of the payload, unchanged. A failed insert gives
/// `SomethingWentWrong`, whatever the failure was.
pub fn create_user(payload: CreateUser, inserted: Result<i64, StorageError>) -> (outcome: Result<
    (u16, User),
    APIError,
>)
    ensures
        match inserted {
            Ok(id) => outcome matches Ok((status, user)) && status == CREATED && user@
                == created_user(payload.name@, payload.email@, id as int),
            Err(_) => outcome matches Err(error) && error == APIError::SomethingWentWrong,
        },
{
    match inserted {
        Ok(id) => Ok((CREATED, User { id, name: payload.name, email: payload.email })),
        Err(_) => Err(APIError::SomethingWentWrong),
    }
}

} // verus!
