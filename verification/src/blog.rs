//! The blog post repository.

pub mod db;
pub mod laws;
pub mod model;
pub mod response;
pub mod schema;
