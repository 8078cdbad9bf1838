//! Backend-agnostic data access: the value coercion engine, the state and
//! error handling of backend connections, and the pools that hand them out.
//!
//! The drivers do the input and output. This crate decides what a driver's
//! answer does to a connection and which typed values a result set puts
//! into a sink.

pub mod address;
pub mod calendar;
pub mod clock;
pub mod coerce;
pub mod db_mysql;
pub mod db_pool;
pub mod db_redis;
pub mod db_sqlite;
pub mod db_trait;
pub mod error;
pub mod float;
pub mod marshal;
pub mod schema;
pub mod sink;
pub mod text;
pub mod value;
