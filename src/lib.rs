//! Core of a tracing agent: probe-script generation, the run pipeline that
//! launches a tracer and sequences its output into submission chunks, the
//! registry of running traces, the connection pool, and request
//! authorization.

pub mod auth;
pub mod config;
pub mod definition;
pub mod entropy;
pub mod launch;
pub mod pipeline;
pub mod pool;
pub mod registry;
pub mod script;
pub mod submission;
pub mod text;
