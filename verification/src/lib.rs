//! Livestock management: tables of breeds with their names, and the rules of
//! the calculators for growth and feed figures.

pub mod breeds;
pub mod calculators;
pub mod cattle;
pub mod chicken;
pub mod error;
pub mod sheep;
pub mod swine;
pub mod text;
pub mod types;
