//! Configuration persistence: a record type declares a logical name and a
//! serialization format, and gets a file under a configuration directory,
//! with `save`, `load` and load-or-default semantics.
//!
//! This crate holds the decisions, each with a verified contract: formats and
//! extensions ([`format`]), error kinds ([`error`]), name and format
//! resolution from declared options ([`descriptor`]), file paths ([`paths`]),
//! the configuration directory and the bounded workspace-root search
//! ([`workspace`]), what loading and recovering do with each outcome
//! ([`capability`]), and the properties relating them ([`laws`]). The
//! filesystem work and the encoding are left to the caller. The book tool's
//! configuration and tasks live in [`book`], [`tasks`], [`cmd`] and [`env`].

pub mod book;
pub mod capability;
pub mod cmd;
pub mod descriptor;
pub mod env;
pub mod error;
pub mod format;
pub mod laws;
pub mod paths;
pub mod tasks;
pub mod workspace;
