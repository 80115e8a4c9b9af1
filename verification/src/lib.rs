//! A verified model of a client-side driver layer for a relational database
//! reached through a C-style, handle-based call-level interface.
//!
//! The native interface itself is a foreign surface that only returns status
//! codes and output values; everything this library can decide on its own is
//! verified here:
//!
//! - the handle-lifetime core: sessions own a registry of live statements,
//!   statements and cursors hold non-owning back-references, every operation
//!   re-validates the parent chain, and teardown ends each native handle
//!   exactly once and in dependency order (see [`driver`]);
//! - classification of native status codes (success, error, no-data,
//!   SQL null) and the driver-local error table (see [`codes`] and [`error`]);
//! - the value codec between host types and the tagged interchange values
//!   that the native layer marshals (see [`types`] and [`temporal`]);
//! - cursor positioning for forward-only and scrollable result sets
//!   (see [`cursor`]);
//! - parameter binding plans, batch bookkeeping and large-object chunking
//!   (see [`statement`] and [`lob`]).

pub mod codes;
pub mod common;
pub mod text;
pub mod error;
pub mod types;
pub mod temporal;
pub mod driver;
pub mod lob;
pub mod statement;
pub mod row;
pub mod cursor;
pub mod transaction;
pub mod testing;

pub use common::{CursorMode, ScrollOption, TransactionMode, EndTransactionMode, ParameterMode};
pub use driver::Driver;
pub use error::MimerError;
pub use row::Row;
pub use transaction::Transaction;
pub use types::{MimerDatatype, ToSql, FromSql, Uuid, Point, GisLocation};
pub use temporal::{Date, Time, Timestamp};
