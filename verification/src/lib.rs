//! Classifies package dependencies as up to date or outdated, bucketing
//! outdated ones by the severity of their version drift (major, minor or
//! patch), and renders a fixed-width summary table.
//!
//! The classifier ([`classify::classify`]) takes the per-package records,
//! compares version strings under semantic-versioning rules through the
//! `semver` crate, and partitions the packages into three buckets with a
//! total count; per-record parse failures become notices, never aborts.
//! The reporter ([`report::render`]) turns the classification into the
//! table text, with whole-number percentages, and refuses an empty report.
//! [`laws`] states and proves the properties that relate the two.

pub mod classify;
pub mod laws;
pub mod report;
pub mod text;
pub mod version;
