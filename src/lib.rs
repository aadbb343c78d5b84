//! Edit (Levenshtein) distance between strings, under code-point or
//! grapheme-cluster segmentation, for single pairs and for ordered batches.

pub mod batch;
pub mod distance;
pub mod pool;
pub mod row;
pub mod segment;
pub mod text;

pub use batch::levenshtein_batch;
pub use pool::{BatchError, PoolCache};
pub use text::levenshtein;
