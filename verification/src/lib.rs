//! Routing, statements and responses of a small profile service, with
//! every function specified over mathematical models and proved.

pub mod api;
pub mod json;
pub mod laws;
pub mod model;
pub mod param;
pub mod response;
pub mod route;
pub mod row;
pub mod service;
pub mod statement;
pub mod text;
