//! Fluent, chainable mutation of a growable text buffer.
//!
//! A [`FluentBuf`] is an owned, growable sequence of Unicode scalar values,
//! modelled as a `Seq<char>`; every position handed to an operation is a
//! character position, so the contents can never be left in a non-text
//! state.  The [`FluentString`] trait re-exposes each mutation operation so
//! that it consumes the buffer and returns it back, letting calls chain
//! into a single expression.  The [`FluentMut`] trait offers the same
//! operation set through an exclusive borrow, so a sequence of calls on one
//! handle leaves every mutation visible through the original binding.
//!
//! Three conditional combinators — `f_push_if`, `f_push_str_if` and
//! `f_truncate_if` — mutate only when a predicate over the buffer's current
//! content says so, which helps with idioms such as comma-joining a growing
//! list of tokens without trailing separators.
//!
//! Besides its contents the buffer carries a proven capacity floor: the
//! reserve operations raise it to at least length plus the request, the
//! shrink operations state exactly where it lands, every other operation
//! leaves it alone, and `capacity` never returns less than it.
//!
//! The general laws of the operations (what an insertion leaves at its
//! position, that appending equals inserting at the end, that truncation is
//! idempotent, what a retain keeps) are stated and proved once for all
//! inputs, over the spec functions that the contracts use.

mod buffer;
mod fluent;
mod fluent_mut;
mod laws;
mod model;

pub use buffer::FluentBuf;
pub use fluent::FluentString;
pub use fluent_mut::FluentMut;
pub use laws::{
    lemma_insert_reads_back, lemma_mask_len, lemma_mask_subseq, lemma_push_chain,
    lemma_push_str_is_insert_str_at_len, lemma_truncate_idempotent,
};
pub use model::{count_true, is_subseq_of, mask, spec_truncate};
