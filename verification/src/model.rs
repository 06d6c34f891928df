//! Mathematical model of the buffer operations.
//!
//! The buffer's contents are modelled as a `Seq<char>`; each executable
//! operation's contract is stated over that sequence, using the spec
//! functions defined here.

use vstd::prelude::*;

verus! {

/// The contents after truncating `s` to length `n`: a prefix of `s` when
/// `n` is within bounds, and `s` unchanged otherwise.
pub open spec fn spec_truncate(s: Seq<char>, n: int) -> Seq<char> {
    if n >= s.len() {
        s
    } else {
        s.subrange(0, n)
    }
}

/// The characters of `s` kept by the bit sequence `bs`: `s[i]` survives
/// exactly when `bs[i]` is true, and the survivors keep their order.
pub open spec fn mask(s: Seq<char>, bs: Seq<bool>) -> Seq<char>
    recommends
        s.len() == bs.len(),
    decreases s.len(),
{
    if s.len() == 0 || bs.len() == 0 {
        Seq::<char>::empty()
    } else {
        mask(s.drop_last(), bs.drop_last()) + (if bs.last() {
            seq![s.last()]
        } else {
            Seq::<char>::empty()
        })
    }
}

/// How many entries of `bs` are true.
pub open spec fn count_true(bs: Seq<bool>) -> int
    decreases bs.len(),
{
    if bs.len() == 0 {
        0
    } else {
        count_true(bs.drop_last()) + (if bs.last() {
            1int
        } else {
            0int
        })
    }
}

/// Whether `t` can be had from `s` by deleting characters, keeping the
/// order of the rest.
pub open spec fn is_subseq_of(t: Seq<char>, s: Seq<char>) -> bool
    decreases s.len(),
{
    if t.len() == 0 {
        true
    } else if s.len() == 0 {
        false
    } else {
        (t.last() == s.last() && is_subseq_of(t.drop_last(), s.drop_last())) || is_subseq_of(
            t,
            s.drop_last(),
        )
    }
}

} // verus!
