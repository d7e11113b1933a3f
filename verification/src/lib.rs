//! Mirrors a user's anime list from a remote catalog into local rows.
//!
//! The crate holds the decisions of that mirror: which remote sub-lists count,
//! which stored rows have gone stale, which records are written for an entry,
//! and where a re-hosted image is kept. Network and storage calls are left to
//! the caller, who hands in what was fetched and carries out what is planned.

pub mod anilist;
pub mod date;
pub mod image;
pub mod machine;
pub mod models;
pub mod reconcile;
pub mod report;
pub mod store;
pub mod text;
