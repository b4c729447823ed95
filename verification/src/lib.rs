//! Extensibility runtime for a desktop application: an extension registry that
//! tracks which plugin owns which capability, a generic table engine that lets
//! plugin code run CRUD and aggregation against its own tables without SQL
//! injection, and the pure decision logic of the plugin loader and runtime.

pub mod aggregate;
pub mod api;
pub mod discovery;
pub mod engine;
pub mod entities;
pub mod errors;
pub mod extensions;
pub mod ident;
pub mod lifecycle;
pub mod loader;
pub mod manifest;
pub mod model;
pub mod plugins;
pub mod runtime;
pub mod schema;
pub mod sql;
pub mod store;
pub mod value;
