//! Request, response and message logic of the ichat backend: the JSON
//! field extraction and response handling of the New API account service,
//! the decisions of the auth, chat and user routes, the startup
//! configuration, and the conversion of chat messages to upstream
//! requests.

pub mod auth;
pub mod config;
pub mod fields;
pub mod flow;
pub mod json;
pub mod message;
pub mod newapi;
pub mod routes;
pub mod text;
pub mod token;
pub mod wire;
