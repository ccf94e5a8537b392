//! An embedded document database, verified.
//!
//! Documents are dictionaries of values, kept in the collections of a
//! database; every save gives a document a new revision and the next
//! sequence number. Replicators transfer revisions between databases and
//! resolve the conflicts that arise. Everything here is held in memory and
//! proved against a mathematical model:
//!
//! - [`model`] says what a database holds and what each operation makes of
//!   it; [`laws`] proves what holds of every database.
//! - [`database`], [`store`], [`defaults`], [`collection`], [`scope`],
//!   [`index`], [`transaction`] and [`listener`] are the database itself.
//! - [`document`], [`value`], [`encryptable`] and [`codec`] are what it
//!   stores, and the tagged encoding of values.
//! - [`replicator`], [`sync`], [`replication`] and [`transfer`] are the
//!   replicator: its configuration, its state machine, and what it does
//!   with one document.
//! - [`error`] and [`logging`] translate the numeric codes of a native
//!   engine into the types of this library and back.

pub mod codec;
pub mod collection;
pub mod database;
pub mod defaults;
pub mod document;
pub mod encryptable;
pub mod error;
pub mod index;
pub mod laws;
pub mod listener;
pub mod logging;
pub mod model;
pub mod replication;
pub mod replicator;
pub mod scope;
pub mod seqs;
pub mod store;
pub mod sync;
pub mod text;
pub mod transaction;
pub mod transfer;
pub mod value;
