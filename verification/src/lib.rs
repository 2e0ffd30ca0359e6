//! Migration of quiz documents from their historical containers and schemas
//! into the one canonical schema, stored in the canonical container.
//!
//! A document passes through four stages. Its container is decoded to text
//! ([`container`]). The text is read as JSON ([`json`], [`json_text`]) and
//! matched against the three known schemas in a fixed order ([`schema`],
//! [`decoder`]). A document of an older schema is converted to the
//! canonical one ([`migrator`]), and the canonical document is encoded
//! again ([`encoder`]).
//!
//! Nothing in this crate touches a file. [`migrator::migrate_file`] makes a
//! plan from the bytes of a file, and [`migrator::next_step`] tells the
//! caller which step of the plan to take next; [`file_ops`] holds the rules
//! by which files are named, and [`gui`] the state of the form that starts
//! a run. [`laws`] states what holds of the stages taken together.
//!
//! Base64, zlib and JSON text are the work of the crates `base64`, `flate2`
//! and `serde_json`. The few functions that call them are marked
//! `external_body`; their contracts are assumed, and each says so. All
//! other code is verified against its contract.

pub mod container;
pub mod decoder;
pub mod encoder;
pub mod error;
pub mod file_ops;
pub mod formats;
pub mod gui;
pub mod json;
pub mod json_text;
pub mod laws;
pub mod migrator;
pub mod schema;
