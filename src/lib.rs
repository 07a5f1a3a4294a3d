//! Typed access to objects and key prefixes ("directories") of an S3-compatible
//! object store: addressing, pagination, bulk maintenance plans and canonical
//! locations for domain types.

pub mod bulk_delete;
pub mod canonical;
pub mod chat;
pub mod client;
pub mod copy_schedule;
pub mod credentials;
pub mod directory;
pub mod listing;
pub mod object;
pub mod text;
