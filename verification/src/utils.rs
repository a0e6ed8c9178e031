//! Helpers around the note store.

pub mod jwt;
