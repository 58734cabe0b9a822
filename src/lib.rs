//! Command construction and result marshalling for a PostgreSQL tool server.
//!
//! Requests arrive as loosely typed values; this crate turns them into SQL
//! statements whose data values are always bound as parameters, and turns the
//! rows that come back into ordered records that keep each column's type.
//! Running statements and speaking the transport protocol are left to the
//! caller.

pub mod text;
pub mod conn;
pub mod error;
pub mod value;
pub mod sql;
pub mod params;
pub mod server;
pub mod reply;
pub mod dispatch;
