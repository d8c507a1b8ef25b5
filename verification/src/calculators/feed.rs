//! Feed conversion and feed efficiency.

pub mod efficiency;
pub mod fcr;
