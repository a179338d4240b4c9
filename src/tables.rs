//! The row shapes of the datasets, one module each.
pub mod link;
pub mod movie;
pub mod rating;
pub mod tag;
pub mod user;
