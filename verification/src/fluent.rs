//! The owned-buffer capability: every buffer mutation, consuming the buffer
//! and returning it back so that calls chain.

use crate::buffer::FluentBuf;
use crate::model::{mask, spec_truncate};
use std::collections::TryReserveError;
use std::ops::Range;
use vstd::math::{max, min};
use vstd::prelude::*;

verus! {

/// Fluent buffer mutation: each operation consumes the buffer, mutates it,
/// and returns the same buffer, so that operations chain into one
/// expression.
///
/// The conditional combinators `f_push_if`, `f_push_str_if` and
/// `f_truncate_if` are supplied with default bodies built on the plain
/// operations; a predicate always sees the buffer's state before the
/// prospective mutation.
pub trait FluentString: Sized + View<V = Seq<char>> {
    /// A proven lower bound on how many characters the buffer can hold
    /// before its storage grows; the true capacity may be higher.
    spec fn cap_floor(&self) -> nat;

    /// Empties the buffer; the capacity is unaffected.
    #[must_use]
    fn f_clear(self) -> (ret: Self)
        ensures
            ret@ == Seq::<char>::empty(),
            ret@.len() == 0,
            ret.cap_floor() == self.cap_floor(),
    ;

    /// Inserts `ch` at position `idx`, shifting the characters after it.
    #[must_use]
    fn f_insert(self, idx: usize, ch: char) -> (ret: Self)
        requires
            idx <= self@.len(),
        ensures
            ret@ == self@.insert(idx as int, ch),
            ret.cap_floor() == self.cap_floor(),
    ;

    /// Inserts the characters of `string` at position `idx`.
    #[must_use]
    fn f_insert_str(self, idx: usize, string: &str) -> (ret: Self)
        requires
            idx <= self@.len(),
        ensures
            ret@ == self@.subrange(0, idx as int) + string@ + self@.subrange(
                idx as int,
                self@.len() as int,
            ),
            ret.cap_floor() == self.cap_floor(),
    ;

    /// Appends `ch` at the end of the buffer.
    #[must_use]
    fn f_push(self, ch: char) -> (ret: Self)
        ensures
            ret@ == self@.push(ch),
            ret.cap_floor() == self.cap_floor(),
    ;

    /// Appends the characters of `string` at the end of the buffer.
    #[must_use]
    fn f_push_str(self, string: &str) -> (ret: Self)
        ensures
            ret@ == self@ + string@,
            ret.cap_floor() == self.cap_floor(),
    ;

    /// Removes the characters of `range` and splices `replace_with` into
    /// their place.
    #[must_use]
    fn f_replace_range(self, range: Range<usize>, replace_with: &str) -> (ret: Self)
        requires
            range.start <= range.end <= self@.len(),
        ensures
            ret@ == self@.subrange(0, range.start as int) + replace_with@ + self@.subrange(
                range.end as int,
                self@.len() as int,
            ),
            ret.cap_floor() == self.cap_floor(),
    ;

    /// Ensures capacity for at least `additional` more characters; the
    /// contents are untouched.
    #[must_use]
    fn f_reserve(self, additional: usize) -> (ret: Self)
        requires
            4 * (self@.len() + additional) <= isize::MAX,
        ensures
            ret@ == self@,
            ret.cap_floor() == max(self.cap_floor() as int, self@.len() + additional),
    ;

    /// As `f_reserve`, without over-allocating.
    #[must_use]
    fn f_reserve_exact(self, additional: usize) -> (ret: Self)
        requires
            4 * (self@.len() + additional) <= isize::MAX,
        ensures
            ret@ == self@,
            ret.cap_floor() == max(self.cap_floor() as int, self@.len() + additional),
    ;

    /// Keeps only the characters for which `f` returns true, in their
    /// original order.
    #[must_use]
    fn f_retain<F: Fn(char) -> bool>(self, f: F) -> (ret: Self)
        requires
            forall|i: int| 0 <= i < self@.len() ==> call_requires(f, (self@[i],)),
        ensures
            exists|bs: Seq<bool>|
                #![auto]
                bs.len() == self@.len() && (forall|i: int|
                    0 <= i < bs.len() ==> call_ensures(f, (self@[i],), bs[i])) && ret@ == mask(
                    self@,
                    bs,
                ),
            ret.cap_floor() == self.cap_floor(),
    ;

    /// Reduces capacity toward `min_capacity`, never below the current
    /// length; the contents are untouched.
    #[must_use]
    fn f_shrink_to(self, min_capacity: usize) -> (ret: Self)
        ensures
            ret@ == self@,
            ret.cap_floor() == min(
                self.cap_floor() as int,
                max(self@.len() as int, min_capacity as int),
            ),
    ;

    /// Reduces capacity as close as possible to the current length; the
    /// contents are untouched.
    #[must_use]
    fn f_shrink_to_fit(self) -> (ret: Self)
        ensures
            ret@ == self@,
            ret.cap_floor() == self@.len(),
    ;

    /// Drops every character at position `new_len` or beyond; does nothing
    /// when the buffer is no longer than `new_len`.  The capacity is not
    /// reduced.
    #[must_use]
    fn f_truncate(self, new_len: usize) -> (ret: Self)
        ensures
            ret@ == spec_truncate(self@, new_len as int),
            ret.cap_floor() == self.cap_floor(),
    ;

    /// As `f_reserve`, but reports an allocation failure instead of
    /// aborting; on success the returned buffer's contents are untouched.
    /// It cannot fail when the capacity floor already covers the request.
    fn f_try_reserve(self, additional: usize) -> (ret: Result<Self, TryReserveError>)
        ensures
            ret matches Ok(b) ==> b@ == self@ && b.cap_floor() == max(
                self.cap_floor() as int,
                self@.len() + additional,
            ),
            self.cap_floor() >= self@.len() + additional ==> ret is Ok,
    ;

    /// As `f_reserve_exact`, but reports an allocation failure instead of
    /// aborting; on success the returned buffer's contents are untouched.
    /// It cannot fail when the capacity floor already covers the request.
    fn f_try_reserve_exact(self, additional: usize) -> (ret: Result<Self, TryReserveError>)
        ensures
            ret matches Ok(b) ==> b@ == self@ && b.cap_floor() == max(
                self.cap_floor() as int,
                self@.len() + additional,
            ),
            self.cap_floor() >= self@.len() + additional ==> ret is Ok,
    ;

    /// As `f_push`, except only if `f`, shown the buffer and the candidate
    /// character, returns true.
    #[must_use]
    fn f_push_if<F: Fn(&Self, char) -> bool>(self, ch: char, f: F) -> (ret: Self)
        requires
            call_requires(f, (&self, ch)),
        ensures
            exists|b: bool|
                #![auto]
                call_ensures(f, (&self, ch), b) && ret@ == (if b {
                    self@.push(ch)
                } else {
                    self@
                }),
            ret.cap_floor() == self.cap_floor(),
    {
        if f(&self, ch) {
            self.f_push(ch)
        } else {
            self
        }
    }

    /// As `f_push_str`, except only if `f`, shown the buffer and the
    /// candidate fragment, returns true.
    #[must_use]
    fn f_push_str_if<F: Fn(&Self, &str) -> bool>(self, string: &str, f: F) -> (ret: Self)
        requires
            call_requires(f, (&self, string)),
        ensures
            exists|b: bool|
                #![auto]
                call_ensures(f, (&self, string), b) && ret@ == (if b {
                    self@ + string@
                } else {
                    self@
                }),
            ret.cap_floor() == self.cap_floor(),
    {
        if f(&self, string) {
            self.f_push_str(string)
        } else {
            self
        }
    }

    /// As `f_truncate`, except only if `f`, shown the buffer, returns a
    /// length to cut to.
    #[must_use]
    fn f_truncate_if<F: Fn(&Self) -> Option<usize>>(self, f: F) -> (ret: Self)
        requires
            call_requires(f, (&self,)),
        ensures
            exists|r: Option<usize>|
                #![auto]
                call_ensures(f, (&self,), r) && ret@ == (match r {
                    Some(l) => spec_truncate(self@, l as int),
                    None => self@,
                }),
            ret.cap_floor() == self.cap_floor(),
    {
        match f(&self) {
            Some(l) => self.f_truncate(l),
            None => self,
        }
    }
}

impl FluentString for FluentBuf {
    open spec fn cap_floor(&self) -> nat {
        FluentBuf::cap_floor(self)
    }

    fn f_clear(self) -> Self {
        let mut buf = self;
        buf.clear();
        buf
    }

    fn f_insert(self, idx: usize, ch: char) -> Self {
        let mut buf = self;
        buf.insert(idx, ch);
        buf
    }

    fn f_insert_str(self, idx: usize, string: &str) -> Self {
        let mut buf = self;
        buf.insert_str(idx, string);
        buf
    }

    fn f_push(self, ch: char) -> Self {
        let mut buf = self;
        buf.push(ch);
        buf
    }

    fn f_push_str(self, string: &str) -> Self {
        let mut buf = self;
        buf.push_str(string);
        buf
    }

    fn f_replace_range(self, range: Range<usize>, replace_with: &str) -> Self {
        let mut buf = self;
        buf.replace_range(range, replace_with);
        buf
    }

    fn f_reserve(self, additional: usize) -> Self {
        let mut buf = self;
        buf.reserve(additional);
        buf
    }

    fn f_reserve_exact(self, additional: usize) -> Self {
        let mut buf = self;
        buf.reserve_exact(additional);
        buf
    }

    fn f_retain<F: Fn(char) -> bool>(self, f: F) -> Self {
        let mut buf = self;
        buf.retain(f);
        buf
    }

    fn f_shrink_to(self, min_capacity: usize) -> Self {
        let mut buf = self;
        buf.shrink_to(min_capacity);
        buf
    }

    fn f_shrink_to_fit(self) -> Self {
        let mut buf = self;
        buf.shrink_to_fit();
        buf
    }

    fn f_truncate(self, new_len: usize) -> Self {
        let mut buf = self;
        buf.truncate(new_len);
        buf
    }

    fn f_try_reserve(self, additional: usize) -> Result<Self, TryReserveError> {
        let mut buf = self;
        match buf.try_reserve(additional) {
            Ok(()) => Ok(buf),
            Err(e) => Err(e),
        }
    }

    fn f_try_reserve_exact(self, additional: usize) -> Result<Self, TryReserveError> {
        let mut buf = self;
        match buf.try_reserve_exact(additional) {
            Ok(()) => Ok(buf),
            Err(e) => Err(e),
        }
    }
}

} // verus!
