//! General laws of the buffer operations, stated over the model and proved
//! once for all inputs.

use crate::model::{count_true, is_subseq_of, mask, spec_truncate};
use vstd::prelude::*;

verus! {

/// Inserting `ch` at any valid position `idx` puts `ch` at position `idx`
/// and grows the contents by exactly one character.
pub proof fn lemma_insert_reads_back(s: Seq<char>, idx: int, ch: char)
    requires
        0 <= idx <= s.len(),
    ensures
        s.insert(idx, ch)[idx] == ch,
        s.insert(idx, ch).len() == s.len() + 1,
{
}

/// Appending a fragment at the end is the same as inserting it at the
/// position equal to the current length.
pub proof fn lemma_push_str_is_insert_str_at_len(s: Seq<char>, t: Seq<char>)
    ensures
        s.subrange(0, s.len() as int) + t + s.subrange(s.len() as int, s.len() as int) == s + t,
{
    assert(s.subrange(0, s.len() as int) + t + s.subrange(s.len() as int, s.len() as int) =~= s
        + t);
}

/// Truncating to `n` twice is the same as truncating once: the second cut
/// finds nothing left beyond `n`.
pub proof fn lemma_truncate_idempotent(s: Seq<char>, n: usize)
    ensures
        spec_truncate(spec_truncate(s, n as int), n as int) == spec_truncate(s, n as int),
{
}

/// The surviving characters of a retain are as many as the predicate
/// accepted.
pub proof fn lemma_mask_len(s: Seq<char>, bs: Seq<bool>)
    requires
        s.len() == bs.len(),
    ensures
        mask(s, bs).len() == count_true(bs),
    decreases s.len(),
{
    if s.len() > 0 {
        lemma_mask_len(s.drop_last(), bs.drop_last());
    }
}

/// The surviving characters of a retain keep their relative order: the
/// result can be had from the original by deletions alone.
pub proof fn lemma_mask_subseq(s: Seq<char>, bs: Seq<bool>)
    requires
        s.len() == bs.len(),
    ensures
        is_subseq_of(mask(s, bs), s),
    decreases s.len(),
{
    if s.len() > 0 {
        let m0 = mask(s.drop_last(), bs.drop_last());
        lemma_mask_subseq(s.drop_last(), bs.drop_last());
        if bs.last() {
            let m = m0 + seq![s.last()];
            assert(m.drop_last() =~= m0);
            assert(m.last() == s.last());
            assert(is_subseq_of(m, s));
        } else {
            assert(mask(s, bs) =~= m0);
            assert(is_subseq_of(m0, s));
        }
    }
}

/// Chaining two pushes appends both characters, in order.
pub proof fn lemma_push_chain(s: Seq<char>, c1: char, c2: char)
    ensures
        s.push(c1).push(c2) == s + seq![c1, c2],
{
    assert(s.push(c1).push(c2) =~= s + seq![c1, c2]);
}

} // verus!
