//! Verified core of a small inventory backend: the statements it sends to its
//! database, the bulk import that runs them, the way database and token failures
//! become answers, and who may do what.
pub mod text;
pub mod database;
pub mod routes;
