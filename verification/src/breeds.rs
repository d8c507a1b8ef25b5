//! Breeds of the less common kinds of livestock.

pub mod camel;
pub mod donkey;
pub mod goat;
pub mod reindeer;
