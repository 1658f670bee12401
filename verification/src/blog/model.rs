//! A blog post as the store holds it.

use crate::document::text_of;
use crate::ident::DocumentId;
use vstd::prelude::*;

verus! {

/// A stored blog post. The dates are in milliseconds since the Unix epoch, the
/// resolution that the store keeps. A post that this repository created has a
/// category and a published flag.
#[allow(non_snake_case)]
#[derive(Clone, Debug, PartialEq, Eq)]
pub struct BlogModel {
    pub id: DocumentId,
    pub title: String,
    pub summary: String,
    pub content: String,
    pub category: Option<String>,
    pub published: Option<bool>,
    pub createdAt: i64,
    pub updatedAt: i64,
}

/// A `BlogModel` as plain values.
#[allow(non_snake_case)]
pub struct BlogModelView {
    pub id: Seq<u8>,
    pub title: Seq<char>,
    pub summary: Seq<char>,
    pub content: Seq<char>,
    pub category: Option<Seq<char>>,
    pub published: Option<bool>,
    pub createdAt: i64,
    pub updatedAt: i64,
}

impl View for BlogModel {
    type V = BlogModelView;

    open spec fn view(&self) -> BlogModelView {
        BlogModelView {
            id: self.id@,
            title: self.title@,
            summary: self.summary@,
            content: self.content@,
            category: text_of(self.category),
            published: self.published,
            createdAt: self.createdAt,
            updatedAt: self.updatedAt,
        }
    }
}

impl BlogModelView {
    /// Whether the post has a category and a published flag.
    pub open spec fn complete(self) -> bool {
        self.category is Some && self.published is Some
    }
}

impl BlogModel {
    /// Whether the post has a category and a published flag.
    pub fn is_complete(&self) -> (r: bool)
        ensures
            r == self@.complete(),
    {
        self.category.is_some() && self.published.is_some()
    }
}

} // verus!
