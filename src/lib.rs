//! A type-aware key-value store driven by a line-based command language.
//!
//! Values carry a type tag and a canonical byte encoding ([`value`]); a
//! [`store::Database`] owns them by key; [`command`] parses one line and applies
//! it to a database.

pub mod value;
pub mod store;
pub mod text;
pub mod command;
