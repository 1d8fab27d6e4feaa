//! A verified catalog of uniquely numbered records.
//!
//! The crate is organised around a persistence abstraction: validated value
//! objects (`entities`), a repository contract with its storage backends, and
//! the use-case orchestrators that external callers go through (`domain`).

pub mod entities;
pub mod repository;
pub mod in_memory;
pub mod domain;
pub mod sqlite;
pub mod airtable;
