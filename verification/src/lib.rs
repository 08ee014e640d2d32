//! An HTTP request-authentication and role-authorization gate.
//!
//! The middleware intercepts a request before it reaches a protected handler,
//! pulls a bearer credential from the request's `token` cookie or its
//! `Authorization` header, has the token verified and the embedded subject
//! resolved to a current account record by two external collaborators, and
//! admits the request only when the account's role is a member of the
//! route's allow-list. An admitted request carries its account record in a
//! per-request context, from which a downstream handler retrieves it.

pub mod account;
pub mod context;
pub mod credential;
pub mod errors;
pub mod laws;
pub mod pipeline;
