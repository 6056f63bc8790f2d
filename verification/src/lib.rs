//! Entity persistence and identity verification for a record-management
//! service: identifiers, document mapping, query composition, key caching
//! and token checks, each with a machine-checked contract.

pub mod codec;
pub mod date;
pub mod document;
pub mod entity;
pub mod global_id;
pub mod graph;
pub mod identity;
pub mod keys;
pub mod membership;
pub mod node_id;
pub mod object_id;
pub mod query;
pub mod text;
pub mod user;
