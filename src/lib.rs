//! Accounting and lifecycle rules for reforestation projects: a platform
//! registry with global policy and counters, projects that move through a
//! funding and planting lifecycle, investor positions with tiered bonuses, and
//! the issuance of carbon credits against verified progress.
//!
//! Every operation validates first and mutates afterwards: on an error, each
//! record handed to it is left exactly as it was.
pub mod types;
pub mod guard;
pub mod tier;
pub mod credit;
pub mod lifecycle;
pub mod registry;
pub mod project;
pub mod investment;
pub mod laws;
