//! The JARVIS backend as a library: its routing table and the handlers of
//! its four routes, each with a contract that says what it returns.

pub mod echo;
pub mod greeting;
pub mod metrics;
pub mod routes;
pub mod text;
