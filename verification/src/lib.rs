//! Verified core of a newsletter subscription service.
//!
//! The library validates raw sign-up input into domain values, issues
//! confirmation tokens, models the transactional subscriber store, and
//! drives the sign-up and confirmation workflows as state machines whose
//! decisions are proved against the specifications in each module.

pub mod domain;
pub mod errors;
pub mod store;
pub mod token;
pub mod workflow;
