//! The decisions of a time-tracking backend, stated as contracts and proved.
//!
//! The backend serves users, clients, projects, activities and time trackings
//! over HTTP and keeps them in a relational store. This crate is everything
//! in it that decides something: who may do what, which queries an operation
//! asks of the store and in which order, what is made of the replies, how
//! pages are counted, how a login is judged, and what an error looks like on
//! the wire. It does no input or output. A server puts it between its web
//! framework and its database: it hands requests in, runs the queries that
//! come out, and hands the replies back.
//!
//! * [`db`] holds the tables, the exchange with the store, a model of what a
//!   well-behaved store answers, and the laws that hold of the operations
//!   against that model.
//! * [`auth`] holds password hashes and session tokens.
//! * [`guard`] reads the bearer token of a request.
//! * [`routes`] holds the role checks and the answers of the routes.
//! * [`error`] and [`catchers`] hold the errors, their status and their body.

pub mod auth;
pub mod catchers;
pub mod db;
pub mod error;
pub mod guard;
pub mod json;
pub mod routes;
