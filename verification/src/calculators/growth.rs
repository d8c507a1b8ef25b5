//! Growth over time.

pub mod adg;
