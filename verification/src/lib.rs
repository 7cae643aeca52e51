//! Boundary-translation layer of a media-indexing server.
//!
//! The `dto` module defines the wire-facing contract types and the
//! conversions between them and the internal domain models held in the
//! sibling modules. Every conversion is a pure, total function over owned
//! values; the contracts state exactly which fields move where, how sparse
//! patches preserve absence, and how derived fields (admin flags, thumbnail
//! size bounds) are computed.

pub mod config;
pub mod ddns;
pub mod dto;
pub mod index;
pub mod settings;
pub mod thumbnail;
pub mod user;
pub mod vfs;
