//! A file-based storage engine: each table is a directory, each record one
//! file, and one metadata file describes the database.
//!
//! The library holds the decisions of the engine and leaves the disk to its
//! caller. An operation is started on a [`Database`], a build on a
//! [`DatabaseBuilder`]; either gives a step that asks for an [`Action`] or is
//! the result. The caller performs the action on the database directory and
//! hands the outcome back as an [`Event`], until the result is there.
//!
//! * [`id`], [`table`], [`schema`]: identifiers, what a data type provides
//!   to be a table, and how a data type's declaration gives its binding
//! * [`layout`], [`protocol`]: the places below the root, and the actions
//!   and events
//! * [`engine`], [`builder`], [`database`]: the record operations, the
//!   build, and the handle
//! * [`model`], [`laws`]: a model of the database directory, and what the
//!   operations do to it
//! * [`crypto`], [`errors`]: key derivation and password hashing, and the
//!   errors

pub mod builder;
pub mod crypto;
pub mod database;
pub mod engine;
pub mod errors;
pub mod id;
pub mod laws;
pub mod layout;
pub mod model;
pub mod protocol;
pub mod schema;
pub mod table;

pub use builder::{Build, BuildError, BuildStep, DatabaseBuilder};
pub use crypto::{
    derive_key, generate_salt, hash_password, verify_password, ArgonParams, IntoOptional,
};
pub use database::Database;
pub use engine::{OpKind, Operation, Reply, Step};
pub use errors::{DBError, MiniDBError, UtilsError};
pub use id::Id;
pub use layout::Location;
pub use protocol::{Action, Event, LockMode, Metadata};
pub use schema::{DeriveError, TableBinding, TableDecl};
pub use table::{AsTable, ForeignKey};
