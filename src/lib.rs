//! A source-to-source generator: it walks the syntax trees of model, repository
//! and controller classes and synthesises the text of an equivalent web service.

pub mod syntax;
pub mod text;
pub mod symbols;
pub mod code;
pub mod context;
pub mod members;
pub mod bodies;
pub mod actions;
pub mod routes;
pub mod classes;
pub mod driver;
pub mod laws;
