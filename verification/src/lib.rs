//! Classification of per-crate build and test outcomes, and their aggregation
//! into one manifest keyed by crate name.
//!
//! The library performs no I/O. A caller lists directories and reads report
//! files, hands what it found to [`walk::Walk`], and does what the returned
//! [`walk::Action`] asks for next.

pub mod category;
pub mod error;
pub mod layout;
pub mod manifest;
pub mod outcome;
pub mod text;
pub mod walk;
