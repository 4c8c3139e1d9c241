//! Tables, their rows, and the operations on them.

pub mod activity;
pub mod client;
pub mod laws;
pub mod pagination;
pub mod project;
pub mod repository;
pub mod store;
pub mod tracking;
pub mod user;
pub mod values;

pub use pagination::PaginationResult;
