//! Verified core of a document repository for two entity kinds, users and
//! blog posts.
//!
//! The repository never talks to the store itself. Every operation is cut into
//! the decisions that surround the store's work: a step that validates its
//! input and says which request to send, and a step that turns the store's
//! reply into a typed response or a typed error. The caller performs the
//! requests.

pub mod auth;
pub mod blog;
mod clock;
pub mod collection;
pub mod document;
pub mod error;
pub mod ident;
pub mod laws;
pub mod paging;
pub mod response;
pub mod store;
