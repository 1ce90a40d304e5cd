//! Responses, and the one place where errors become responses.
use vstd::prelude::*;
use vstd::string::*;
use crate::json::{
    is_plain_text, json_string, json_string_text, message_object, message_object_text, quoted,
    user_object_text,
};
use crate::model::{listing_text, user_text, MultipleUsersResult, User, UserRecord};

verus! {

/// The status of a request that was served.
pub const OK: u16 = 200;

/// The status of a request that created a user.
pub const CREATED: u16 = 201;

/// The status of a request for which there is no route.
pub const NOT_FOUND: u16 = 404;

/// The status of a request that failed in storage.
pub const INTERNAL_SERVER_ERROR: u16 = 500;

/// What kind of text a body is.
#[derive(Debug, Clone, Copy, PartialEq, Eq, Structural)]
pub enum ContentType {
    /// `application/json`
    Json,
    /// `text/plain`
    Text,
}

/// What is sent back for one request.
#[derive(Debug, Clone, PartialEq, Eq)]
pub struct Response {
    pub status: u16,
    pub content_type: ContentType,
    pub body: String,
}

/// A response as mathematics.
pub struct ResponseView {
    pub status: int,
    pub content_type: ContentType,
    pub body: Seq<char>,
}

impl View for Response {
    type V = ResponseView;

    open spec fn view(&self) -> ResponseView {
        ResponseView {
            status: self.status as int,
            content_type: self.content_type,
            body: self.body@,
        }
    }
}

/// The response with a JSON body.
pub open spec fn json_response(status: int, body: Seq<char>) -> ResponseView {
    ResponseView { status, content_type: ContentType::Json, body }
}

/// The response with a body of plain text.
pub open spec fn text_response(status: int, body: Seq<char>) -> ResponseView {
    ResponseView { status, content_type: ContentType::Text, body }
}

/// The response whose body is the JSON object with the one member `message`.
pub open spec fn message_response(status: int, message: Seq<char>) -> ResponseView {
    json_response(status, message_object_text(json_string_text(message)))
}

/// The response that carries one user.
pub open spec fn user_response(status: int, user: UserRecord) -> ResponseView {
    json_response(status, user_text(user))
}

/// The response that lists the users.
pub open spec fn listing_response(users: Seq<UserRecord>) -> ResponseView {
    json_response(OK as int, listing_text(users))
}

/// What went wrong while a request was served. The text of the storage error
/// is not part of it: a caller of the service learns which operation failed
/// and nothing else.
#[derive(Debug, Clone, Copy, PartialEq, Eq, Structural)]
pub enum APIError {
    /// Storage failed while a user was created.
    SomethingWentWrong,
    /// Storage failed while the users were listed.
    SomethingElseWentWrong,
}

impl APIError {
    /// The body that stands for the error.
    pub open spec fn body_text(self) -> Seq<char> {
        match self {
            APIError::SomethingWentWrong => "something went wrong"@,
            APIError::SomethingElseWentWrong => "something else went wrong"@,
        }
    }

    /// The response that stands for the error.
    pub open spec fn response(self) -> ResponseView {
        text_response(INTERNAL_SERVER_ERROR as int, self.body_text())
    }

    /// The body that stands for the error.
    pub fn body(&self) -> (text: &'static str)
        ensures
            text@ == self.body_text(),
    {
        match self {
            APIError::SomethingWentWrong => "something went wrong",
            APIError::SomethingElseWentWrong => "something else went wrong",
        }
    }

    /// Maps the error to its response: status 500 and the error's fixed body
    /// as plain text.
    pub fn into_response(self) -> (response: Response)
        ensures
            response@ == self.response(),
    {
        Response {
            status: INTERNAL_SERVER_ERROR,
            content_type: ContentType::Text,
            body: String::from_str(self.body()),
        }
    }
}

impl Response {
    /// The response with status `status` whose body is the JSON object with
    /// the one member `message`. A message without quotes, backslashes and
    /// control characters stands in the body as it is.
    pub fn message(status: u16, message: &str) -> (response: Response)
        ensures
            response@ == message_response(status as int, message@),
            is_plain_text(message@) ==> response.body@ == message_object_text(quoted(message@)),
    {
        let encoded = json_string(message);
        Response { status, content_type: ContentType::Json, body: message_object(encoded.as_str()) }
    }

    /// The response with status `status` whose body is the JSON object of
    /// `user`.
    pub fn user(status: u16, user: &User) -> (response: Response)
        ensures
            response@ == user_response(status as int, user@),
            is_plain_text(user.name@) && is_plain_text(user.email@) ==> response.body@
                == user_object_text(user.id as int, quoted(user.name@), quoted(user.email@)),
    {
        Response { status, content_type: ContentType::Json, body: user.to_json() }
    }

    /// The response with status 200 whose body lists the users.
    pub fn listing(listing: &MultipleUsersResult) -> (response: Response)
        ensures
            response@ == listing_response(listing@),
            listing@.len() == 0 ==> response.body@ == "{\"users\":[]}"@,
    {
        Response { status: OK, content_type: ContentType::Json, body: listing.to_json() }
    }

    /// The response to a request that lists the users, given what the
    /// handler made of it: the listing with status 200, or the response of
    /// the error.
    pub fn from_listing(outcome: Result<MultipleUsersResult, APIError>) -> (response: Response)
        ensures
            response@ == match outcome {
                Ok(listing) => listing_response(listing@),
                Err(error) => error.response(),
            },
            outcome matches Ok(listing) && listing@.len() == 0 ==> response.body@
                == "{\"users\":[]}"@,
    {
        match outcome {
            Ok(listing) => Response::listing(&listing),
            Err(error) => error.into_response(),
        }
    }

    /// The response to a request that creates a user, given what the handler
    /// made of it: the user with the handler's status, or the response of the
    /// error.
    pub fn from_creation(outcome: Result<(u16, User), APIError>) -> (response: Response)
        ensures
            response@ == match outcome {
                Ok((status, user)) => user_response(status as int, user@),
                Err(error) => error.response(),
            },
            outcome matches Ok((status, user)) ==> (is_plain_text(user.name@) && is_plain_text(
                user.email@,
            ) ==> response.body@ == user_object_text(
                user.id as int,
                quoted(user.name@),
                quoted(user.email@),
            )),
    {
        match outcome {
            Ok((status, user)) => Response::user(status, &user),
            Err(error) => error.into_response(),
        }
    }
}

} // verus!
