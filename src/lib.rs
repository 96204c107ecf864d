//! A singly linked list addressed by fractional positions.
//!
//! The oldest element sits at position -1, each newer one a step higher, and a
//! position with a fractional part names the gap just below the next whole one.
//! `pop` and `peek` work at the newest end, while position -1 is the oldest.
mod index;
mod laws;
mod list;

pub use index::FracIndex;
pub use laws::{
    lemma_bounds, lemma_len_counts_calls, lemma_peek_then_pop, lemma_push_each_reverses,
    lemma_push_then_drain, lemma_pushes_then_pops, lemma_write_then_peek, lemma_write_then_read,
    net_count, pop_each, push_each, run,
};
pub use list::{first_of, read_at, rest_of, IntoIter, Iter, IterMut, List};
