//! What a caller supplies to create or change a user.

use crate::document::text_of;
use vstd::prelude::*;

verus! {

/// The fields of a new user. `name` is the uniqueness key.
#[derive(Clone, Debug, PartialEq, Eq)]
pub struct CreateUserSchema {
    pub name: String,
    pub uid: String,
}

/// A `CreateUserSchema` as plain values.
pub struct CreateUserView {
    pub name: Seq<char>,
    pub uid: Seq<char>,
}

impl View for CreateUserSchema {
    type V = CreateUserView;

    open spec fn view(&self) -> CreateUserView {
        CreateUserView { name: self.name@, uid: self.uid@ }
    }
}

/// The fields of a user that are to change; an absent field stays as it is.
#[derive(Clone, Debug, PartialEq, Eq)]
pub struct UpdateUserSchema {
    pub name: Option<String>,
    pub uid: Option<String>,
}

/// An `UpdateUserSchema` as plain values.
pub struct UpdateUserView {
    pub name: Option<Seq<char>>,
    pub uid: Option<Seq<char>>,
}

impl View for UpdateUserSchema {
    type V = UpdateUserView;

    open spec fn view(&self) -> UpdateUserView {
        UpdateUserView { name: text_of(self.name), uid: text_of(self.uid) }
    }
}

} // verus!
