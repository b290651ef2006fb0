//! Wiki pages kept in an append-only, hash-linked chain of records, and the
//! rule that decides whether an update to a page may be appended.

pub mod page;
pub mod store;
pub mod validation;
pub mod api;
