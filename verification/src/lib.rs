//! Core of a minimal in-memory social-media backend.
//!
//! Five independent stores hold all state: users, posts, comments,
//! like edges and follow edges. Every operation on them is verified:
//! registration keeps usernames unique, like/follow edges are kept
//! free of duplicates, the self-follow is rejected, and the derived
//! queries (a user's posts, a post's comments, a follower's feed)
//! return exactly the matching records in timestamp order.
//!
//! The surrounding HTTP adapter is not part of this crate's logic;
//! it hands in plain values and receives plain values back.

pub mod config;
pub mod content;
pub mod errors;
mod fresh;
pub mod identity;
pub mod models;
pub mod ops;
pub mod order;
pub mod query;
pub mod relations;
mod seq_facts;
