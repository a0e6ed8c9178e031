//! What the request handlers decide, apart from the transport.

pub mod notes;
