//! Authentication core of a small task-management service: signed, expiring
//! identity tokens, the middleware that guards protected routes, and the
//! decisions of the request handlers, each with a contract.

pub mod auth_middleware;
pub mod clock;
pub mod http;
pub mod jwt;
pub mod object_id;
pub mod password;
pub mod routes;
pub mod store;
pub mod task_controller;
pub mod task_model;
pub mod text;
pub mod user_controller;
pub mod user_model;
