//! Verified core of a TodoMVC application: the rules of the HTTP API, the
//! client-side list of todos, and the decisions behind the user interface.
pub mod api;
pub mod config;
pub mod error;
pub mod filter;
pub mod ident;
pub mod request;
pub mod routes;
pub mod state;
pub mod text;
pub mod todo;
pub mod todo_list;
pub mod ui;
