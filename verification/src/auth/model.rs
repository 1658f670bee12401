//! A user as the store holds it.

use crate::ident::DocumentId;
use vstd::prelude::*;

verus! {

/// A stored user. The dates are in milliseconds since the Unix epoch, the
/// resolution that the store keeps.
#[allow(non_snake_case)]
#[derive(Clone, Debug, PartialEq, Eq)]
pub struct UserModel {
    pub id: DocumentId,
    pub name: String,
    pub uid: String,
    pub createdAt: i64,
    pub updatedAt: i64,
}

/// A `UserModel` as plain values.
#[allow(non_snake_case)]
pub struct UserModelView {
    pub id: Seq<u8>,
    pub name: Seq<char>,
    pub uid: Seq<char>,
    pub createdAt: i64,
    pub updatedAt: i64,
}

impl View for UserModel {
    type V = UserModelView;

    open spec fn view(&self) -> UserModelView {
        UserModelView {
            id: self.id@,
            name: self.name@,
            uid: self.uid@,
            createdAt: self.createdAt,
            updatedAt: self.updatedAt,
        }
    }
}

} // verus!
