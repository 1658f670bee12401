//! What the blog post repository answers.

use vstd::prelude::*;

verus! {

pub use crate::response::GenericResponse;

/// A blog post as callers see it: the identifier as hex text, the post's
/// fields, and the two dates in milliseconds since the Unix epoch.
#[allow(non_snake_case)]
#[derive(Clone, Debug, PartialEq, Eq)]
pub struct BlogResponse {
    pub id: String,
    pub title: String,
    pub summary: String,
    pub content: String,
    pub category: String,
    pub published: bool,
    pub createdAt: i64,
    pub updatedAt: i64,
}

/// A `BlogResponse` as plain values.
#[allow(non_snake_case)]
pub struct BlogResponseView {
    pub id: Seq<char>,
    pub title: Seq<char>,
    pub summary: Seq<char>,
    pub content: Seq<char>,
    pub category: Seq<char>,
    pub published: bool,
    pub createdAt: i64,
    pub updatedAt: i64,
}

impl View for BlogResponse {
    type V = BlogResponseView;

    open spec fn view(&self) -> BlogResponseView {
        BlogResponseView {
            id: self.id@,
            title: self.title@,
            summary: self.summary@,
            content: self.content@,
            category: self.category@,
            published: self.published,
            createdAt: self.createdAt,
            updatedAt: self.updatedAt,
        }
    }
}

/// The payload of a response that carries one blog post.
#[derive(Clone, Debug, PartialEq, Eq)]
pub struct BlogData {
    pub blog: BlogResponse,
}

/// The response that carries one blog post.
#[derive(Clone, Debug, PartialEq, Eq)]
pub struct SingleBlogResponse {
    pub status: &'static str,
    pub data: BlogData,
}

/// A `SingleBlogResponse` as plain values.
pub struct SingleBlogView {
    pub status: Seq<char>,
    pub blog: BlogResponseView,
}

impl View for SingleBlogResponse {
    type V = SingleBlogView;

    open spec fn view(&self) -> SingleBlogView {
        SingleBlogView { status: self.status@, blog: self.data.blog@ }
    }
}

/// The response that carries a page of blog posts. `results` counts the posts
/// of the page, not those of the collection.
#[derive(Clone, Debug, PartialEq, Eq)]
pub struct BlogListResponse {
    pub status: &'static str,
    pub results: usize,
    pub blogs: Vec<BlogResponse>,
}

/// A `BlogListResponse` as plain values.
pub struct BlogListView {
    pub status: Seq<char>,
    pub results: nat,
    pub blogs: Seq<BlogResponseView>,
}

impl View for BlogListResponse {
    type V = BlogListView;

    open spec fn view(&self) -> BlogListView {
        BlogListView {
            status: self.status@,
            results: self.results as nat,
            blogs: self.blogs@.map_values(|b: BlogResponse| b@),
        }
    }
}

} // verus!
