//! Routing, request handling and seeding logic for a small social-graph
//! service that forwards named queries to a graph database client.
pub mod bytes;
pub mod json;
pub mod proxy;
pub mod route;
pub mod seed;
