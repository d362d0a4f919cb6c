//! Daily work-report synchronisation: the pure core.
//!
//! A report is normalised, stored under a name derived from its date, and
//! mirrored into a git-hosted archive through a probe-then-commit exchange.
//! This crate holds every decision of that path; reading, writing and the
//! network are left to the caller, who performs the actions the crate hands
//! out and reports back what happened.

pub mod commit;
pub mod date;
pub mod encoding;
pub mod json;
pub mod normalize;
pub mod outcome;
pub mod probe;
pub mod retention;
pub mod store;
pub mod sync;
pub mod target;
pub mod text;
