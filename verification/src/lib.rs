//! Request routing for a small storage gateway: a key-value record store and an
//! object bucket behind one HTTP surface.
//!
//! The gateway itself does no I/O. `http_handler::function_handler` takes a
//! request and either answers it or names the one backend request that the route
//! calls for; the host performs that request and hands the reply to
//! `http_handler::complete`, which shapes the response. `memory::MemoryTable` can
//! stand in for the record store.

pub mod backend;
pub mod dynamodb;
pub mod http_handler;
pub mod json;
pub mod laws;
pub mod memory;
pub mod message;
pub mod query;
pub mod s3;
pub mod table_laws;
pub mod text;
