//! Detects schema migrations that are declared on disk but absent from a
//! database's applied-migrations ledger.
//!
//! The library decides and computes; it performs no input or output. A run
//! starts with [`find_missing_migrations`], which hands out the first of
//! four stages. Each stage names the outside work to do and takes its
//! outcome. The parts are also usable on their own:
//!
//! - [`connector`] turns a [`DatabaseConfig`] into a connection plan,
//! - [`ledger`] materializes the rows of the history table,
//! - [`scanner`] derives identifiers from a directory listing,
//! - [`reconcile`] reports what is declared and not applied.

pub mod connector;
pub mod error;
pub mod identifier;
pub mod ledger;
pub mod reconcile;
pub mod scanner;
pub mod session;

pub use connector::DatabaseConfig;
pub use session::find_missing_migrations;
