//! Ordered classification levels that gate authorization decisions: caller
//! trust, group-management trust and authenticator assurance.
//!
//! Each classification is a closed set of named levels with a total order,
//! lowest privilege first, and is read from a string token.

pub mod aal;
pub mod groups_trust;
pub mod text;
pub mod trust;

pub use aal::{AALevel, AALevelError};
pub use groups_trust::{GroupsTrust, GroupsTrustError};
pub use trust::{Trust, TrustError};
