//! Relationship indexes for records kept in content-addressed partitions.
//!
//! A partition holds immutable entries, each found at the address derived from
//! its type and content, and typed, tagged edges between addresses. On top of
//! that this crate builds key indexes (stable aliases for addresses), local
//! bidirectional indexes, and remote indexes that are mirrored into a
//! cooperating partition through a request/response call. What holds of
//! them whatever the partition is stated and proved in [`laws`].
//!
//! Beside the indexes stand the pieces of the record types that lean on
//! them: the built-in actions, the stored form of a proposal, and the
//! queries for economic events and resources.
pub mod address;
pub mod type_aliases;
pub mod errors;
pub mod maybe_undefined;
pub mod store;
pub mod keys;
pub mod local_indexes;
pub mod rpc;
pub mod remote_indexes;
pub mod transports;
pub mod laws;
pub mod record_interface;
pub mod actions;
pub mod proposal;
pub mod economic_event;
pub mod economic_resource;
