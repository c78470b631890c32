//! The Gulpease readability index.
//!
//! The index rates how easy a passage is to read, on a scale from 0 to 100,
//! from three counts: its sentences, its words and its letters. Higher is
//! easier.

pub mod classes;
pub mod counts;
pub mod index;
pub mod laws;
pub mod score;

pub use counts::TextCounts;
pub use index::GulpeaseIndex;
pub use score::Score;
