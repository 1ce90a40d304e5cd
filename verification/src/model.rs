//! The user resource and the shapes in which it enters and leaves the service.
use vstd::prelude::*;
use crate::json::{
    is_plain_text, json_string, json_string_text, lemma_users_object_of_none, quoted, texts,
    user_object, user_object_text, users_object, users_object_text,
};

verus! {

/// What a user is, as mathematics: the id that storage assigned, and the name
/// and the email as they were sent.
pub struct UserRecord {
    pub id: int,
    pub name: Seq<char>,
    pub email: Seq<char>,
}

/// A persisted user.
#[derive(Debug, Clone, PartialEq, Eq)]
pub struct User {
    pub id: i64,
    pub name: String,
    pub email: String,
}

impl View for User {
    type V = UserRecord;

    open spec fn view(&self) -> UserRecord {
        UserRecord { id: self.id as int, name: self.name@, email: self.email@ }
    }
}

/// The body of a request that creates a user.
#[derive(Debug, Clone, PartialEq, Eq)]
pub struct CreateUser {
    pub name: String,
    pub email: String,
}

/// One row of the `users` table, as a query returned it.
#[derive(Debug, Clone, PartialEq, Eq)]
pub struct UserFromQuery {
    pub id: i64,
    pub name: String,
    pub email: String,
}

impl View for UserFromQuery {
    type V = UserRecord;

    open spec fn view(&self) -> UserRecord {
        UserRecord { id: self.id as int, name: self.name@, email: self.email@ }
    }
}

impl UserFromQuery {
    /// Turns the row into the user that it holds, field by field.
    pub fn into_user(self) -> (user: User)
        ensures
            user@ == self@,
    {
        User { id: self.id, name: self.name, email: self.email }
    }
}

/// The body of the answer that lists the users.
#[derive(Debug, Clone, PartialEq, Eq)]
pub struct MultipleUsersResult {
    pub users: Vec<User>,
}

/// The records of a sequence of users, in the same order.
pub open spec fn records(users: Seq<User>) -> Seq<UserRecord> {
    users.map_values(|user: User| user@)
}

/// The records of a sequence of rows, in the same order.
pub open spec fn row_records(rows: Seq<UserFromQuery>) -> Seq<UserRecord> {
    rows.map_values(|row: UserFromQuery| row@)
}

impl View for MultipleUsersResult {
    type V = Seq<UserRecord>;

    open spec fn view(&self) -> Seq<UserRecord> {
        records(self.users@)
    }
}

/// The JSON object of one user: `id`, `name` and `email`, in this order.
pub open spec fn user_text(user: UserRecord) -> Seq<char> {
    user_object_text(user.id, json_string_text(user.name), json_string_text(user.email))
}

/// The JSON object of each of the users, in the same order.
pub open spec fn user_texts(users: Seq<UserRecord>) -> Seq<Seq<char>> {
    users.map_values(|user: UserRecord| user_text(user))
}

/// The JSON object that lists the users under the one member `users`.
pub open spec fn listing_text(users: Seq<UserRecord>) -> Seq<char> {
    users_object_text(user_texts(users))
}

impl User {
    /// Writes the user as a JSON object.
    pub fn to_json(&self) -> (text: String)
        ensures
            text@ == user_text(self@),
            is_plain_text(self.name@) && is_plain_text(self.email@) ==> text@ == user_object_text(
                self.id as int,
                quoted(self.name@),
                quoted(self.email@),
            ),
    {
        let name = json_string(self.name.as_str());
        let email = json_string(self.email.as_str());
        user_object(self.id, name.as_str(), email.as_str())
    }
}

impl MultipleUsersResult {
    /// Writes the listing as a JSON object whose member `users` is an array
    /// with one object for each user, in the order of the listing. Without
    /// users the array is empty.
    pub fn to_json(&self) -> (text: String)
        ensures
            text@ == listing_text(self@),
            self@.len() == 0 ==> text@ == "{\"users\":[]}"@,
    {
        let mut items: Vec<String> = Vec::new();
        let mut i: usize = 0;
        while i < self.users.len()
            invariant
                i <= self.users.len(),
                items@.len() == i,
                forall|j: int| 0 <= j < i ==> (#[trigger] items@[j])@ == user_text(self.users@[j]@),
            decreases self.users.len() - i,
        {
            items.push(self.users[i].to_json());
            i = i + 1;
        }
        proof {
            assert(texts(items@) =~= user_texts(self@));
            if self@.len() == 0 {
                lemma_users_object_of_none(texts(items@));
            }
        }
        users_object(&items)
    }
}

} // verus!
