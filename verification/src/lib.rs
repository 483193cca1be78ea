//! The verified core of a binding between a managed host and an embedded
//! key-value engine.
//!
//! The binding opens a database, and puts, gets and deletes single keys. What
//! it decides on the way is decided here, on plain values:
//!
//! - [`options`], [`kinds`], [`decode`] and [`config`] turn the loosely typed
//!   option bag of an open into a validated engine configuration;
//! - [`open`] says when the engine is asked to open at all, and hands on
//!   what it reports;
//! - [`guard`] says in which mode each operation holds the guard of its
//!   handle;
//! - [`outcome`] brings the engine's answers into one uniform result.
//!
//! The engine and the host runtime are not part of this crate. Whoever calls
//! them hands their plain results to the functions here.

pub mod config;
pub mod decode;
pub mod guard;
pub mod kinds;
pub mod open;
pub mod options;
pub mod outcome;
pub mod text;
