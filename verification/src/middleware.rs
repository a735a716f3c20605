//! Request-side rules: who is signed in, which roles a route or a piece
//! of a page requires, and the value filters the templates use.

pub mod auth;
pub mod permissions;
pub mod tera_filters;
