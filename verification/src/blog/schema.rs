//! What a caller supplies to create or change a blog post.

use crate::document::text_of;
use vstd::prelude::*;

verus! {

/// The fields of a new blog post. `title` is the uniqueness key. Where
/// `category` or `published` is absent, the post is stored with an empty
/// category, or unpublished.
#[derive(Clone, Debug, PartialEq, Eq)]
pub struct CreateBlogSchema {
    pub title: String,
    pub summary: String,
    pub content: String,
    pub category: Option<String>,
    pub published: Option<bool>,
}

/// A `CreateBlogSchema` as plain values.
pub struct CreateBlogView {
    pub title: Seq<char>,
    pub summary: Seq<char>,
    pub content: Seq<char>,
    pub category: Option<Seq<char>>,
    pub published: Option<bool>,
}

impl View for CreateBlogSchema {
    type V = CreateBlogView;

    open spec fn view(&self) -> CreateBlogView {
        CreateBlogView {
            title: self.title@,
            summary: self.summary@,
            content: self.content@,
            category: text_of(self.category),
            published: self.published,
        }
    }
}

/// The fields of a blog post that are to change; an absent field stays as it
/// is.
#[derive(Clone, Debug, PartialEq, Eq)]
pub struct UpdateBlogSchema {
    pub title: Option<String>,
    pub summary: Option<String>,
    pub content: Option<String>,
    pub category: Option<String>,
    pub published: Option<bool>,
}

/// An `UpdateBlogSchema` as plain values.
pub struct UpdateBlogView {
    pub title: Option<Seq<char>>,
    pub summary: Option<Seq<char>>,
    pub content: Option<Seq<char>>,
    pub category: Option<Seq<char>>,
    pub published: Option<bool>,
}

impl View for UpdateBlogSchema {
    type V = UpdateBlogView;

    open spec fn view(&self) -> UpdateBlogView {
        UpdateBlogView {
            title: text_of(self.title),
            summary: text_of(self.summary),
            content: text_of(self.content),
            category: text_of(self.category),
            published: self.published,
        }
    }
}

} // verus!
