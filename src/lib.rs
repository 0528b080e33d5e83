//! The Grøstl-256 hash function: a portable, table-driven implementation of
//! the P and Q permutations, the compression function, the output
//! transform and a streaming hasher around them.
pub mod field;
pub mod permutation;
pub mod compress;
pub mod hasher;

pub use compress::{BLOCK_SIZE, OUTPUT_SIZE};
pub use hasher::{Groestl256, HashState};
