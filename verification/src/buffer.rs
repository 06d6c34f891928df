//! The owned text buffer: a growable sequence of Unicode scalar values.

use crate::model::{mask, spec_truncate};
use std::collections::TryReserveError;
use std::ops::Range;
use vstd::math::{max, min};
use vstd::prelude::*;
use vstd::string::StrSliceExecFns;

verus! {

/// Relies on `String::push`: appends the given character to the end of the
/// string.
#[verifier::external_body]
fn string_push(s: &mut String, ch: char)
    ensures
        final(s)@ == old(s)@.push(ch),
{
    s.push(ch);
}

/// A growable, owned, mutable sequence of Unicode scalar values.
///
/// Positions taken by the mutation operations are character positions
/// (indices into the character sequence), so every position addresses a
/// boundary between complete characters and the contents can never be left
/// in a non-text state.  The buffer's view is the sequence of its
/// characters.
///
/// Besides its contents the buffer carries a ghost capacity floor,
/// [`cap_floor`](Self::cap_floor): a proven lower bound on how many
/// characters the storage can hold before it grows.  The capacity-affecting
/// operations state how they move that floor; every other operation leaves
/// it alone.
pub struct FluentBuf {
    chars: Vec<char>,
    cap: Ghost<nat>,
}

impl View for FluentBuf {
    type V = Seq<char>;

    closed spec fn view(&self) -> Seq<char> {
        self.chars@
    }
}

impl FluentBuf {
    /// A lower bound on how many characters the buffer can hold before its
    /// storage grows.  [`capacity`](Self::capacity) never returns less than
    /// this; the true capacity may be higher, since the growth strategy may
    /// over-allocate.
    pub closed spec fn cap_floor(&self) -> nat {
        self.cap@
    }

    /// An empty buffer.  It allocates nothing, so no capacity is promised.
    pub fn new() -> (ret: Self)
        ensures
            ret@ == Seq::<char>::empty(),
            ret.cap_floor() == 0,
    {
        FluentBuf { chars: Vec::new(), cap: Ghost(0) }
    }

    /// An empty buffer whose storage can hold at least `capacity`
    /// characters before it grows.
    ///
    /// Relies on `Vec::with_capacity`: the vector can hold at least
    /// `capacity` elements without reallocating.
    #[verifier::external_body]
    pub fn with_capacity(capacity: usize) -> (ret: Self)
        ensures
            ret@ == Seq::<char>::empty(),
            ret.cap_floor() == capacity,
    {
        FluentBuf { chars: Vec::with_capacity(capacity), cap: Ghost(0) }
    }

    /// A buffer holding the characters of `s`.
    pub fn from_str(s: &str) -> (ret: Self)
        ensures
            ret@ == s@,
            ret.cap_floor() == s@.len(),
    {
        let n = s.unicode_len();
        let mut buf = FluentBuf::with_capacity(n);
        for k in 0..n
            invariant
                n == s@.len(),
                buf@ == s@.subrange(0, k as int),
                buf.cap_floor() == n,
        {
            buf.push(s.get_char(k));
            proof {
                assert(buf@ =~= s@.subrange(0, k + 1));
            }
        }
        proof {
            assert(buf@ =~= s@);
        }
        buf
    }

    /// The number of characters held.
    pub fn len(&self) -> (n: usize)
        ensures
            n == self@.len(),
    {
        self.chars.len()
    }

    /// Whether the buffer holds no characters.
    pub fn is_empty(&self) -> (ret: bool)
        ensures
            ret == (self@.len() == 0),
    {
        self.chars.is_empty()
    }

    /// The character at position `idx`.
    pub fn char_at(&self, idx: usize) -> (c: char)
        requires
            idx < self@.len(),
        ensures
            c == self@[idx as int],
    {
        self.chars[idx]
    }

    /// How many characters the buffer can hold before its storage grows.
    ///
    /// Relies on `Vec::capacity`, which is never below the length, and on
    /// the vector never shrinking its storage on its own: every operation
    /// of this buffer either leaves the capacity alone, grows it, or
    /// re-states the floor that the call it makes guarantees, so the
    /// recorded floor never exceeds the true capacity.
    #[verifier::external_body]
    pub fn capacity(&self) -> (c: usize)
        ensures
            c >= self@.len(),
            c >= self.cap_floor(),
    {
        self.chars.capacity()
    }

    /// The contents of the buffer as an owned `String`.
    pub fn as_string(&self) -> (ret: String)
        ensures
            ret@ == self@,
    {
        let mut out = String::new();
        let n = self.chars.len();
        for k in 0..n
            invariant
                n == self@.len(),
                out@ == self@.subrange(0, k as int),
        {
            string_push(&mut out, self.chars[k]);
            proof {
                assert(out@ =~= self@.subrange(0, k + 1));
            }
        }
        proof {
            assert(self@.subrange(0, n as int) =~= self@);
        }
        out
    }

    /// Empties the buffer; the capacity is unaffected.
    pub fn clear(&mut self)
        ensures
            final(self)@ == Seq::<char>::empty(),
            final(self)@.len() == 0,
            final(self).cap_floor() == old(self).cap_floor(),
    {
        self.chars.clear();
    }

    /// Inserts `ch` at position `idx`, shifting the characters after it.
    pub fn insert(&mut self, idx: usize, ch: char)
        requires
            idx <= old(self)@.len(),
        ensures
            final(self)@ == old(self)@.insert(idx as int, ch),
            final(self).cap_floor() == old(self).cap_floor(),
    {
        self.chars.insert(idx, ch);
    }

    /// Appends `ch` at the end of the buffer.
    pub fn push(&mut self, ch: char)
        ensures
            final(self)@ == old(self)@.push(ch),
            final(self).cap_floor() == old(self).cap_floor(),
    {
        self.chars.push(ch);
    }

    /// Appends the characters of `string` at the end of the buffer.
    pub fn push_str(&mut self, string: &str)
        ensures
            final(self)@ == old(self)@ + string@,
            final(self).cap_floor() == old(self).cap_floor(),
    {
        let ghost orig = self.chars@;
        let n = string.unicode_len();
        for k in 0..n
            invariant
                n == string@.len(),
                self.chars@ == orig + string@.subrange(0, k as int),
                self.cap_floor() == old(self).cap_floor(),
        {
            self.chars.push(string.get_char(k));
            proof {
                assert(self.chars@ =~= orig + string@.subrange(0, k + 1));
            }
        }
        proof {
            assert(orig + string@.subrange(0, n as int) =~= orig + string@);
        }
    }

    /// Inserts the characters of `string` at position `idx`, shifting the
    /// characters after it.
    pub fn insert_str(&mut self, idx: usize, string: &str)
        requires
            idx <= old(self)@.len(),
        ensures
            final(self)@ == old(self)@.subrange(0, idx as int) + string@ + old(self)@.subrange(
                idx as int,
                old(self)@.len() as int,
            ),
            final(self).cap_floor() == old(self).cap_floor(),
    {
        let ghost orig = self.chars@;
        let n = string.unicode_len();
        for k in 0..n
            invariant
                n == string@.len(),
                idx <= orig.len(),
                self.chars@ == orig.subrange(0, idx as int) + string@.subrange(0, k as int)
                    + orig.subrange(idx as int, orig.len() as int),
                self.cap_floor() == old(self).cap_floor(),
        {
            let m = self.chars.len();
            proof {
                assert(m == orig.len() + k);
                assert(idx + k <= m);
            }
            self.chars.insert(idx + k, string.get_char(k));
            proof {
                assert(self.chars@ =~= orig.subrange(0, idx as int) + string@.subrange(0, k + 1)
                    + orig.subrange(idx as int, orig.len() as int));
            }
        }
        proof {
            assert(orig.subrange(0, idx as int) + string@.subrange(0, n as int) + orig.subrange(
                idx as int,
                orig.len() as int,
            ) =~= orig.subrange(0, idx as int) + string@ + orig.subrange(
                idx as int,
                orig.len() as int,
            ));
        }
    }

    /// Removes the characters of `range` and splices `replace_with` into
    /// their place.  `range` is a half-open range of positions within the
    /// buffer.
    pub fn replace_range(&mut self, range: Range<usize>, replace_with: &str)
        requires
            range.start <= range.end <= old(self)@.len(),
        ensures
            final(self)@ == old(self)@.subrange(0, range.start as int) + replace_with@
                + old(self)@.subrange(range.end as int, old(self)@.len() as int),
            final(self).cap_floor() == old(self).cap_floor(),
    {
        let start = range.start;
        let end = range.end;
        let count = end - start;
        let ghost orig = self.chars@;
        for t in 0..count
            invariant
                start + count <= orig.len(),
                self.chars@ == orig.subrange(0, start as int) + orig.subrange(
                    start + t,
                    orig.len() as int,
                ),
                self.cap_floor() == old(self).cap_floor(),
        {
            proof {
                assert(self.chars@.len() == orig.len() - t);
            }
            self.chars.remove(start);
            proof {
                assert(self.chars@ =~= orig.subrange(0, start as int) + orig.subrange(
                    start + t + 1,
                    orig.len() as int,
                ));
            }
        }
        proof {
            assert(self.chars@.subrange(0, start as int) =~= orig.subrange(0, start as int));
            assert(self.chars@.subrange(start as int, self.chars@.len() as int) =~= orig.subrange(
                end as int,
                orig.len() as int,
            ));
        }
        self.insert_str(start, replace_with);
    }

    /// Drops every character at position `new_len` or beyond; does nothing
    /// when the buffer is no longer than `new_len`.  The capacity is not
    /// reduced.
    pub fn truncate(&mut self, new_len: usize)
        ensures
            final(self)@ == spec_truncate(old(self)@, new_len as int),
            final(self).cap_floor() == old(self).cap_floor(),
    {
        self.chars.truncate(new_len);
        proof {
            if new_len >= old(self)@.len() {
                assert(old(self)@.subrange(0, old(self)@.len() as int) =~= old(self)@);
            }
        }
    }

    /// Keeps only the characters for which `f` returns true, in their
    /// original order; `f` is asked once per character, in sequence order.
    /// The capacity is not reduced.
    pub fn retain<F: Fn(char) -> bool>(&mut self, f: F)
        requires
            forall|i: int| 0 <= i < old(self)@.len() ==> call_requires(f, (old(self)@[i],)),
        ensures
            exists|bs: Seq<bool>|
                #![auto]
                bs.len() == old(self)@.len() && (forall|i: int|
                    0 <= i < bs.len() ==> call_ensures(f, (old(self)@[i],), bs[i]))
                    && final(self)@ == mask(old(self)@, bs),
            final(self).cap_floor() == old(self).cap_floor(),
    {
        let ghost orig = self.chars@;
        let ghost mut bits: Seq<bool> = Seq::empty();
        let mut j: usize = 0;
        let n = self.chars.len();
        for i in 0..n
            invariant
                n == orig.len(),
                orig == old(self)@,
                j <= i <= n,
                self.chars@.len() == n,
                bits.len() == i,
                forall|t: int| 0 <= t < old(self)@.len() ==> call_requires(f, (old(self)@[t],)),
                forall|t: int| 0 <= t < i ==> call_ensures(f, (orig[t],), bits[t]),
                self.chars@.subrange(0, j as int) == mask(orig.subrange(0, i as int), bits),
                j == mask(orig.subrange(0, i as int), bits).len(),
                forall|t: int| i <= t < n ==> self.chars@[t] == orig[t],
                self.cap_floor() == old(self).cap_floor(),
        {
            let c = self.chars[i];
            proof {
                assert(c == old(self)@[i as int]);
                assert(call_requires(f, (old(self)@[i as int],)));
            }
            let keep = f(c);
            let ghost prev = self.chars@;
            if keep {
                self.chars[j] = c;
                j += 1;
            }
            proof {
                let pi = orig.subrange(0, i as int);
                let pi1 = orig.subrange(0, i + 1);
                let grown = bits.push(keep);
                assert(pi1.drop_last() =~= pi);
                assert(grown.drop_last() =~= bits);
                assert(mask(pi1, grown) == mask(pi, bits) + (if keep {
                    seq![orig[i as int]]
                } else {
                    Seq::<char>::empty()
                }));
                if keep {
                    assert(self.chars@ == prev.update(j - 1, c));
                    assert(self.chars@.subrange(0, j as int) =~= prev.subrange(0, j - 1).push(c));
                }
                assert(self.chars@.subrange(0, j as int) =~= mask(pi1, grown));
                bits = grown;
            }
        }
        proof {
            assert(orig.subrange(0, n as int) =~= orig);
        }
        self.chars.truncate(j);
        proof {
            assert(bits.len() == orig.len());
            assert(forall|t: int| 0 <= t < bits.len() ==> call_ensures(f, (orig[t],), bits[t]));
            assert(self.chars@ == mask(orig, bits));
        }
    }

    /// Ensures capacity for at least `additional` more characters; the
    /// contents are untouched.  May over-allocate; aborts when the memory
    /// cannot be had.
    ///
    /// Relies on `Vec::reserve`: afterwards the capacity is at least the
    /// length plus `additional`, and it never shrinks.  The element count
    /// is bounded so that the new capacity cannot exceed `isize::MAX`
    /// bytes, on which `reserve` panics.
    #[verifier::external_body]
    pub fn reserve(&mut self, additional: usize)
        requires
            4 * (old(self)@.len() + additional) <= isize::MAX,
        ensures
            final(self)@ == old(self)@,
            final(self).cap_floor() == max(
                old(self).cap_floor() as int,
                old(self)@.len() + additional,
            ),
    {
        self.chars.reserve(additional);
    }

    /// Ensures capacity for at least `additional` more characters without
    /// over-allocating; the contents are untouched.
    ///
    /// Relies on `Vec::reserve_exact`: afterwards the capacity is at least
    /// the length plus `additional` (the allocator may still give more),
    /// and it never shrinks.  The element count is bounded so that the new
    /// capacity cannot exceed `isize::MAX` bytes, on which `reserve_exact`
    /// panics.
    #[verifier::external_body]
    pub fn reserve_exact(&mut self, additional: usize)
        requires
            4 * (old(self)@.len() + additional) <= isize::MAX,
        ensures
            final(self)@ == old(self)@,
            final(self).cap_floor() == max(
                old(self).cap_floor() as int,
                old(self)@.len() + additional,
            ),
    {
        self.chars.reserve_exact(additional);
    }

    /// As `reserve`, but reports an allocation failure instead of
    /// aborting; the contents are untouched either way.
    ///
    /// Relies on `Vec::try_reserve`: on success the capacity is at least
    /// the length plus `additional` and never shrinks; on failure nothing
    /// was allocated; and it does nothing — so it cannot fail — when the
    /// capacity is already sufficient.
    #[verifier::external_body]
    pub fn try_reserve(&mut self, additional: usize) -> (ret: Result<(), TryReserveError>)
        ensures
            final(self)@ == old(self)@,
            ret is Ok ==> final(self).cap_floor() == max(
                old(self).cap_floor() as int,
                old(self)@.len() + additional,
            ),
            ret is Err ==> final(self).cap_floor() == old(self).cap_floor(),
            old(self).cap_floor() >= old(self)@.len() + additional ==> ret is Ok,
    {
        self.chars.try_reserve(additional)
    }

    /// As `reserve_exact`, but reports an allocation failure instead of
    /// aborting; the contents are untouched either way.
    ///
    /// Relies on `Vec::try_reserve_exact`: on success the capacity is at
    /// least the length plus `additional` and never shrinks; on failure
    /// nothing was allocated; and it does nothing — so it cannot fail —
    /// when the capacity is already sufficient.
    #[verifier::external_body]
    pub fn try_reserve_exact(&mut self, additional: usize) -> (ret: Result<(), TryReserveError>)
        ensures
            final(self)@ == old(self)@,
            ret is Ok ==> final(self).cap_floor() == max(
                old(self).cap_floor() as int,
                old(self)@.len() + additional,
            ),
            ret is Err ==> final(self).cap_floor() == old(self).cap_floor(),
            old(self).cap_floor() >= old(self)@.len() + additional ==> ret is Ok,
    {
        self.chars.try_reserve_exact(additional)
    }

    /// Reduces capacity toward `min_capacity`, never below the current
    /// length; the contents are untouched.
    ///
    /// Relies on `Vec::shrink_to`: the capacity stays at least as large as
    /// both the length and `min_capacity`, and the call is a no-op when the
    /// capacity is already below `min_capacity` — so the previous floor
    /// holds wherever it was the lower.
    #[verifier::external_body]
    pub fn shrink_to(&mut self, min_capacity: usize)
        ensures
            final(self)@ == old(self)@,
            final(self).cap_floor() == min(
                old(self).cap_floor() as int,
                max(old(self)@.len() as int, min_capacity as int),
            ),
    {
        self.chars.shrink_to(min_capacity);
    }

    /// Reduces capacity as close as possible to the current length; the
    /// contents are untouched.
    ///
    /// Relies on `Vec::shrink_to_fit`: the capacity stays at least as
    /// large as the length; how close it comes is the allocator's choice,
    /// so only the length remains as the floor.
    #[verifier::external_body]
    pub fn shrink_to_fit(&mut self)
        ensures
            final(self)@ == old(self)@,
            final(self).cap_floor() == old(self)@.len(),
    {
        self.chars.shrink_to_fit();
    }
}

} // verus!
