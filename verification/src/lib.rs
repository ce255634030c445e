//! Verified core of the MyStu campus forum backend: the error codes, the
//! request filters and routing decisions, JWT framing, verification codes and
//! the decisions each request handler takes between its database and Redis
//! round trips.

pub mod comment;
pub mod error;
pub mod filter;
pub mod jwt;
pub mod post;
pub mod route;
pub mod text;
pub mod tool;
pub mod user;
