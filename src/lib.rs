//! Typed configuration builders and a driver loader for the BigQuery ADBC driver.
pub mod connection;
pub mod database;
pub mod driver;
pub mod value;

pub use connection::Connection;
pub use database::Database;
pub use driver::{AbiVersion, Driver, DriverError, DriverLoader};
