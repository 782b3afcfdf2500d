//! A question-and-answer service core: questions, answers and accounts held
//! under ownership rules, bearer-token sessions, a content-policy gate,
//! pagination, and the mapping of every failure to a stable outward signal.

pub mod error;
pub mod text;
pub mod pagination;
pub mod types;
pub mod store;
pub mod policy;
pub mod auth;
pub mod outside;
pub mod routes;
pub mod claims;
