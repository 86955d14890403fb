//! Subdomain enumeration engine: wordlist filtering, resolver selection and
//! round-robin assignment, wildcard baselines, CDN classification of
//! canonical names, and the bookkeeping of a bounded-concurrency scan.
//!
//! Network lookups themselves are made by the caller; every decision taken on
//! their results lives here.

pub mod address;
pub mod cdn;
pub mod classify;
pub mod context;
pub mod error;
pub mod names;
pub mod pool;
pub mod scan;
pub mod wordlist;
