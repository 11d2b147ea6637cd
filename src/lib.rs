//! Client library for a code-intelligence service: resolves which repository
//! to ask about, builds indexing and query requests, and decides what each
//! service response means.

pub mod client;
pub mod conversation;
pub mod error;
pub mod identity;
pub mod request;
