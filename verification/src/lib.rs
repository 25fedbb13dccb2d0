//! Code generation for typed EdgeDB queries: from the type descriptors that the
//! server returns for a query to the Rust source of a module that runs it.
pub mod cardinality;
pub mod constants;
pub mod descriptor;
pub mod gel_descriptor;
pub mod gel_generator;
pub mod generator;
pub mod gelx;
pub mod laws;
pub mod naming;
pub mod paths;
pub mod query_input;
pub mod scalars;
pub mod text;
pub mod tokens;
