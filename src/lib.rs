//! Request handling for a small user service whose records live in a
//! remote key-value store: each route is a pair of functions, one that says
//! which store call to make and one that turns the store's answer into a reply.

pub mod store;
pub mod json;
pub mod users;
pub mod model;
