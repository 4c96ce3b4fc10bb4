//! A todo service's rules, verified: field validation, listing parameters, the SQL of
//! listings, and the decisions on commands.

pub mod aggregate;
pub mod error;
pub mod laws;
pub mod query;
pub mod sql;
pub mod text;
pub mod todo;
