//! Helpers for a club-management backend: salted password digests,
//! short attendance codes, and search patterns for record filtering.
pub mod code;
pub mod password;
pub mod search;
