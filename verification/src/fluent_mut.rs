//! The mutable-handle capability: every buffer mutation, reached through an
//! exclusive borrow.

use crate::buffer::FluentBuf;
use crate::model::{mask, spec_truncate};
use std::collections::TryReserveError;
use std::ops::Range;
use vstd::math::{max, min};
use vstd::prelude::*;

verus! {

/// Buffer mutation through an exclusive borrow.
///
/// Each operation mutates the borrowed buffer in place, so a chain of calls
/// on the same handle leaves every mutation visible through the original
/// binding.  The conditional combinators `f_push_if`, `f_push_str_if` and
/// `f_truncate_if` are supplied with default bodies built on the plain
/// operations; a predicate always sees the buffer's state before the
/// prospective mutation.
pub trait FluentMut: Sized + View<V = Seq<char>> {
    /// A proven lower bound on how many characters the buffer can hold
    /// before its storage grows; the true capacity may be higher.
    spec fn cap_floor(&self) -> nat;

    /// Empties the buffer; the capacity is unaffected.
    fn f_clear(&mut self)
        ensures
            final(self)@ == Seq::<char>::empty(),
            final(self)@.len() == 0,
            final(self).cap_floor() == old(self).cap_floor(),
    ;

    /// Inserts `ch` at position `idx`, shifting the characters after it.
    fn f_insert(&mut self, idx: usize, ch: char)
        requires
            idx <= old(self)@.len(),
        ensures
            final(self)@ == old(self)@.insert(idx as int, ch),
            final(self).cap_floor() == old(self).cap_floor(),
    ;

    /// Inserts the characters of `string` at position `idx`.
    fn f_insert_str(&mut self, idx: usize, string: &str)
        requires
            idx <= old(self)@.len(),
        ensures
            final(self)@ == old(self)@.subrange(0, idx as int) + string@ + old(self)@.subrange(
                idx as int,
                old(self)@.len() as int,
            ),
            final(self).cap_floor() == old(self).cap_floor(),
    ;

    /// Appends `ch` at the end of the buffer.
    fn f_push(&mut self, ch: char)
        ensures
            final(self)@ == old(self)@.push(ch),
            final(self).cap_floor() == old(self).cap_floor(),
    ;

    /// Appends the characters of `string` at the end of the buffer.
    fn f_push_str(&mut self, string: &str)
        ensures
            final(self)@ == old(self)@ + string@,
            final(self).cap_floor() == old(self).cap_floor(),
    ;

    /// Removes the characters of `range` and splices `replace_with` into
    /// their place.
    fn f_replace_range(&mut self, range: Range<usize>, replace_with: &str)
        requires
            range.start <= range.end <= old(self)@.len(),
        ensures
            final(self)@ == old(self)@.subrange(0, range.start as int) + replace_with@
                + old(self)@.subrange(range.end as int, old(self)@.len() as int),
            final(self).cap_floor() == old(self).cap_floor(),
    ;

    /// Ensures capacity for at least `additional` more characters; the
    /// contents are untouched.
    fn f_reserve(&mut self, additional: usize)
        requires
            4 * (old(self)@.len() + additional) <= isize::MAX,
        ensures
            final(self)@ == old(self)@,
            final(self).cap_floor() == max(
                old(self).cap_floor() as int,
                old(self)@.len() + additional,
            ),
    ;

    /// As `f_reserve`, without over-allocating.
    fn f_reserve_exact(&mut self, additional: usize)
        requires
            4 * (old(self)@.len() + additional) <= isize::MAX,
        ensures
            final(self)@ == old(self)@,
            final(self).cap_floor() == max(
                old(self).cap_floor() as int,
                old(self)@.len() + additional,
            ),
    ;

    /// Keeps only the characters for which `f` returns true, in their
    /// original order.
    fn f_retain<F: Fn(char) -> bool>(&mut self, f: F)
        requires
            forall|i: int| 0 <= i < old(self)@.len() ==> call_requires(f, (old(self)@[i],)),
        ensures
            exists|bs: Seq<bool>|
                #![auto]
                bs.len() == old(self)@.len() && (forall|i: int|
                    0 <= i < bs.len() ==> call_ensures(f, (old(self)@[i],), bs[i]))
                    && final(self)@ == mask(old(self)@, bs),
            final(self).cap_floor() == old(self).cap_floor(),
    ;

    /// Reduces capacity toward `min_capacity`, never below the current
    /// length; the contents are untouched.
    fn f_shrink_to(&mut self, min_capacity: usize)
        ensures
            final(self)@ == old(self)@,
            final(self).cap_floor() == min(
                old(self).cap_floor() as int,
                max(old(self)@.len() as int, min_capacity as int),
            ),
    ;

    /// Reduces capacity as close as possible to the current length; the
    /// contents are untouched.
    fn f_shrink_to_fit(&mut self)
        ensures
            final(self)@ == old(self)@,
            final(self).cap_floor() == old(self)@.len(),
    ;

    /// Drops every character at position `new_len` or beyond; does nothing
    /// when the buffer is no longer than `new_len`.  The capacity is not
    /// reduced.
    fn f_truncate(&mut self, new_len: usize)
        ensures
            final(self)@ == spec_truncate(old(self)@, new_len as int),
            final(self).cap_floor() == old(self).cap_floor(),
    ;

    /// As `f_reserve`, but reports an allocation failure instead of
    /// aborting; the contents are untouched either way.  It cannot fail
    /// when the capacity floor already covers the request.
    fn f_try_reserve(&mut self, additional: usize) -> (ret: Result<(), TryReserveError>)
        ensures
            final(self)@ == old(self)@,
            ret is Ok ==> final(self).cap_floor() == max(
                old(self).cap_floor() as int,
                old(self)@.len() + additional,
            ),
            ret is Err ==> final(self).cap_floor() == old(self).cap_floor(),
            old(self).cap_floor() >= old(self)@.len() + additional ==> ret is Ok,
    ;

    /// As `f_reserve_exact`, but reports an allocation failure instead of
    /// aborting; the contents are untouched either way.  It cannot fail
    /// when the capacity floor already covers the request.
    fn f_try_reserve_exact(&mut self, additional: usize) -> (ret: Result<(), TryReserveError>)
        ensures
            final(self)@ == old(self)@,
            ret is Ok ==> final(self).cap_floor() == max(
                old(self).cap_floor() as int,
                old(self)@.len() + additional,
            ),
            ret is Err ==> final(self).cap_floor() == old(self).cap_floor(),
            old(self).cap_floor() >= old(self)@.len() + additional ==> ret is Ok,
    ;

    /// As `f_push`, except only if `f`, shown the buffer and the candidate
    /// character, returns true.
    fn f_push_if<F: Fn(&Self, char) -> bool>(&mut self, ch: char, f: F)
        requires
            call_requires(f, (&*old(self), ch)),
        ensures
            exists|b: bool|
                #![auto]
                call_ensures(f, (&*old(self), ch), b) && final(self)@ == (if b {
                    old(self)@.push(ch)
                } else {
                    old(self)@
                }),
            final(self).cap_floor() == old(self).cap_floor(),
    {
        if f(self, ch) {
            self.f_push(ch);
        }
    }

    /// As `f_push_str`, except only if `f`, shown the buffer and the
    /// candidate fragment, returns true.
    fn f_push_str_if<F: Fn(&Self, &str) -> bool>(&mut self, string: &str, f: F)
        requires
            call_requires(f, (&*old(self), string)),
        ensures
            exists|b: bool|
                #![auto]
                call_ensures(f, (&*old(self), string), b) && final(self)@ == (if b {
                    old(self)@ + string@
                } else {
                    old(self)@
                }),
            final(self).cap_floor() == old(self).cap_floor(),
    {
        if f(self, string) {
            self.f_push_str(string);
        }
    }

    /// As `f_truncate`, except only if `f`, shown the buffer, returns a
    /// length to cut to.
    fn f_truncate_if<F: Fn(&Self) -> Option<usize>>(&mut self, f: F)
        requires
            call_requires(f, (&*old(self),)),
        ensures
            exists|r: Option<usize>|
                #![auto]
                call_ensures(f, (&*old(self),), r) && final(self)@ == (match r {
                    Some(l) => spec_truncate(old(self)@, l as int),
                    None => old(self)@,
                }),
            final(self).cap_floor() == old(self).cap_floor(),
    {
        match f(self) {
            Some(l) => self.f_truncate(l),
            None => (),
        }
    }
}

impl FluentMut for FluentBuf {
    open spec fn cap_floor(&self) -> nat {
        FluentBuf::cap_floor(self)
    }

    fn f_clear(&mut self) {
        self.clear();
    }

    fn f_insert(&mut self, idx: usize, ch: char) {
        self.insert(idx, ch);
    }

    fn f_insert_str(&mut self, idx: usize, string: &str) {
        self.insert_str(idx, string);
    }

    fn f_push(&mut self, ch: char) {
        self.push(ch);
    }

    fn f_push_str(&mut self, string: &str) {
        self.push_str(string);
    }

    fn f_replace_range(&mut self, range: Range<usize>, replace_with: &str) {
        self.replace_range(range, replace_with);
    }

    fn f_reserve(&mut self, additional: usize) {
        self.reserve(additional);
    }

    fn f_reserve_exact(&mut self, additional: usize) {
        self.reserve_exact(additional);
    }

    fn f_retain<F: Fn(char) -> bool>(&mut self, f: F) {
        self.retain(f);
    }

    fn f_shrink_to(&mut self, min_capacity: usize) {
        self.shrink_to(min_capacity);
    }

    fn f_shrink_to_fit(&mut self) {
        self.shrink_to_fit();
    }

    fn f_truncate(&mut self, new_len: usize) {
        self.truncate(new_len);
    }

    fn f_try_reserve(&mut self, additional: usize) -> (ret: Result<(), TryReserveError>) {
        self.try_reserve(additional)
    }

    fn f_try_reserve_exact(&mut self, additional: usize) -> (ret: Result<(), TryReserveError>) {
        self.try_reserve_exact(additional)
    }
}

} // verus!
