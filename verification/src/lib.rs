//! A note-keeping service core: the rules of the note store, an in-memory
//! model of the document collection it talks to, and the token issuer.
//!
//! Nothing here performs I/O. A storage backend is driven through the plain
//! values of [`store`]; the decisions of every operation live in [`plan`],
//! what the collection answers is defined in [`model`], and [`db`] runs the
//! operations against the in-memory [`collection`]. What holds across
//! operations is proved in [`laws`].

pub mod clock;
pub mod collection;
pub mod db;
pub mod error;
pub mod ident;
pub mod laws;
pub mod model;
pub mod plan;
pub mod routes;
pub mod store;
pub mod types;
pub mod utils;
