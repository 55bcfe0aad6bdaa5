//! The data model: the stored `User` row and the `UserMessage` transport
//! shape that callers supply to create or replace one.

use vstd::prelude::*;

verus! {

/// What a caller supplies to create or replace an account: no identity,
/// no timestamps. On an update all three fields are applied wholesale.
pub struct UserMessage {
    pub email: String,
    pub name: String,
    pub password: String,
}

/// The mathematical value of a `UserMessage`.
pub struct UserMessageView {
    pub email: Seq<char>,
    pub name: Seq<char>,
    pub password: Seq<char>,
}

impl View for UserMessage {
    type V = UserMessageView;

    open spec fn view(&self) -> UserMessageView {
        UserMessageView { email: self.email@, name: self.name@, password: self.password@ }
    }
}

/// A stored user row. The id is a 128-bit UUID value, drawn fresh at
/// creation and immutable afterwards; `created_at` and `updated_at` are
/// seconds since the Unix epoch.
#[derive(Debug)]
pub struct User {
    pub id: u128,
    pub email: String,
    pub name: String,
    pub password: String,
    pub created_at: i64,
    pub updated_at: Option<i64>,
}

/// The mathematical value of a `User` row.
pub struct UserView {
    pub id: u128,
    pub email: Seq<char>,
    pub name: Seq<char>,
    pub password: Seq<char>,
    pub created_at: i64,
    pub updated_at: Option<i64>,
}

impl View for User {
    type V = UserView;

    open spec fn view(&self) -> UserView {
        UserView {
            id: self.id,
            email: self.email@,
            name: self.name@,
            password: self.password@,
            created_at: self.created_at,
            updated_at: self.updated_at,
        }
    }
}

impl Clone for User {
    fn clone(&self) -> (r: Self)
        ensures
            r == *self,
    {
        User {
            id: self.id,
            email: self.email.clone(),
            name: self.name.clone(),
            password: self.password.clone(),
            created_at: self.created_at,
            updated_at: self.updated_at,
        }
    }
}

impl User {
    /// The row that creation stores: the message's fields, a given fresh
    /// id and creation time, and no update time yet.
    pub fn from_message(msg: UserMessage, id: u128, created_at: i64) -> (r: User)
        ensures
            r@ == (UserView {
                id,
                email: msg@.email,
                name: msg@.name,
                password: msg@.password,
                created_at,
                updated_at: None,
            }),
    {
        User {
            id,
            email: msg.email,
            name: msg.name,
            password: msg.password,
            created_at,
            updated_at: None,
        }
    }
}

} // verus!
