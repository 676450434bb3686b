//! Gift lists: accounts, sessions, and the claiming of items.

pub mod auth_and_login;
pub mod config;
pub mod cookie;
pub mod entropy;
pub mod escape;
pub mod headers;
pub mod laws;
pub mod model;
pub mod password;
pub mod route_handlers;
pub mod search;
pub mod state;
pub mod text;
pub mod utilities;
pub mod views;
