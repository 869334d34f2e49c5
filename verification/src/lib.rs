//! Request logic of a small GraphQL user/friends server: error values and
//! their HTTP mapping, input validation, password handling, and the step
//! machines that drive every resolver and HTTP handler through its database
//! and session work.

pub mod errors;
pub mod credentials;
pub mod schemas;
pub mod database;
pub mod graphql_schema;
pub mod handlers;
pub mod model;
