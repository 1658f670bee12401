//! What the user repository answers.

use vstd::prelude::*;

verus! {

pub use crate::response::GenericResponse;

/// A user as callers see it: the identifier as hex text, the user's fields, and
/// the two dates in milliseconds since the Unix epoch.
#[allow(non_snake_case)]
#[derive(Clone, Debug, PartialEq, Eq)]
pub struct UserResponse {
    pub id: String,
    pub name: String,
    pub uid: String,
    pub createdAt: i64,
    pub updatedAt: i64,
}

/// A `UserResponse` as plain values.
#[allow(non_snake_case)]
pub struct UserResponseView {
    pub id: Seq<char>,
    pub name: Seq<char>,
    pub uid: Seq<char>,
    pub createdAt: i64,
    pub updatedAt: i64,
}

impl View for UserResponse {
    type V = UserResponseView;

    open spec fn view(&self) -> UserResponseView {
        UserResponseView {
            id: self.id@,
            name: self.name@,
            uid: self.uid@,
            createdAt: self.createdAt,
            updatedAt: self.updatedAt,
        }
    }
}

/// The payload of a response that carries one user.
#[derive(Clone, Debug, PartialEq, Eq)]
pub struct UserData {
    pub user: UserResponse,
}

/// The response that carries one user.
#[derive(Clone, Debug, PartialEq, Eq)]
pub struct SingleUserResponse {
    pub status: &'static str,
    pub data: UserData,
}

/// A `SingleUserResponse` as plain values.
pub struct SingleUserView {
    pub status: Seq<char>,
    pub user: UserResponseView,
}

impl View for SingleUserResponse {
    type V = SingleUserView;

    open spec fn view(&self) -> SingleUserView {
        SingleUserView { status: self.status@, user: self.data.user@ }
    }
}

/// The response that carries a page of users. `results` counts the users of
/// the page, not those of the collection.
#[derive(Clone, Debug, PartialEq, Eq)]
pub struct UserListResponse {
    pub status: &'static str,
    pub results: usize,
    pub users: Vec<UserResponse>,
}

/// A `UserListResponse` as plain values.
pub struct UserListView {
    pub status: Seq<char>,
    pub results: nat,
    pub users: Seq<UserResponseView>,
}

impl View for UserListResponse {
    type V = UserListView;

    open spec fn view(&self) -> UserListView {
        UserListView {
            status: self.status@,
            results: self.results as nat,
            users: self.users@.map_values(|u: UserResponse| u@),
        }
    }
}

} // verus!
