//! One line of editable text, addressed by character column.

use vstd::prelude::*;
use crate::text::clamp_slice;

verus! {

/// A single line of the buffer. Its view is the sequence of characters it
/// holds; a well-formed row never contains a line break.
pub struct Row {
    chars: Vec<char>,
}

impl View for Row {
    type V = Seq<char>;

    closed spec fn view(&self) -> Seq<char> {
        self.chars@
    }
}

impl Row {
    /// No character of the row is a newline.
    pub open spec fn wf(&self) -> bool {
        crate::text::no_newline(self@)
    }

    /// An empty row.
    pub fn new() -> (r: Row)
        ensures
            r@ == Seq::<char>::empty(),
            r.wf(),
    {
        Row { chars: Vec::new() }
    }

    /// A row holding the characters of `value`.
    pub fn from(value: &str) -> (r: Row)
        ensures
            r@ == value@,
            (forall|i: int| 0 <= i < value@.len() ==> value@[i] != '\n') ==> r.wf(),
    {
        Row { chars: crate::text::str_chars(value) }
    }

    /// The character count of the row (the unit of all cursor arithmetic).
    pub fn len(&self) -> (n: usize)
        ensures
            n == self@.len(),
    {
        self.chars.len()
    }

    /// Whether the row holds no characters.
    pub fn is_empty(&self) -> (b: bool)
        ensures
            b == (self@.len() == 0),
    {
        self.chars.len() == 0
    }

    /// The substring of the row in `[start, end)`, clamped to the row's
    /// actual length: it never fails, however far `start` or `end` lie
    /// beyond the row, and is empty whenever `start >= len`.
    pub fn render(&self, start: usize, end: usize) -> (s: String)
        ensures
            s@ == clamp_slice(self@, start as int, end as int),
            start >= self@.len() ==> s@ == Seq::<char>::empty(),
    {
        let hi = if end > self.chars.len() {
            self.chars.len()
        } else {
            end
        };
        let lo = if start > hi {
            hi
        } else {
            start
        };
        let mut s = String::new();
        proof {
            assert(s@ =~= self@.subrange(lo as int, lo as int));
        }
        let mut i: usize = lo;
        while i < hi
            invariant
                lo <= i <= hi <= self@.len(),
                s@ == self@.subrange(lo as int, i as int),
            decreases hi - i,
        {
            s.push(self.chars[i]);
            proof {
                assert(s@ =~= self@.subrange(lo as int, i as int + 1));
            }
            i = i + 1;
        }
        proof {
            assert(s@ =~= clamp_slice(self@, start as int, end as int));
        }
        s
    }

    /// Inserts `c` before column `at`; when `at` is at or beyond the end,
    /// appends. The row grows by exactly one character.
    pub fn insert(&mut self, at: usize, c: char)
        ensures
            final(self)@ == (if at < old(self)@.len() {
                old(self)@.insert(at as int, c)
            } else {
                old(self)@.push(c)
            }),
            final(self)@.len() == old(self)@.len() + 1,
            old(self).wf() && c != '\n' ==> final(self).wf(),
    {
        if at < self.chars.len() {
            self.chars.insert(at, c);
        } else {
            self.chars.push(c);
        }
    }

    /// Removes the character at column `at` if there is one; a no-op when
    /// `at` is out of range. The row shrinks by at most one character.
    pub fn delete(&mut self, at: usize)
        ensures
            final(self)@ == (if at < old(self)@.len() {
                old(self)@.remove(at as int)
            } else {
                old(self)@
            }),
            old(self).wf() ==> final(self).wf(),
    {
        if at < self.chars.len() {
            self.chars.remove(at);
        }
    }

    /// The row's text as a string, for persistence; one row is exactly one
    /// line of the saved file.
    pub fn contents(&self) -> (s: String)
        ensures
            s@ == self@,
    {
        crate::text::chars_to_string(&self.chars)
    }

    /// Appends every character of `other` onto the end of this row.
    pub fn append(&mut self, other: &Row)
        ensures
            final(self)@ == old(self)@ + other@,
            old(self).wf() && other.wf() ==> final(self).wf(),
    {
        let mut i: usize = 0;
        proof {
            assert(self@ =~= old(self)@ + other@.subrange(0, 0));
        }
        while i < other.chars.len()
            invariant
                i <= other@.len(),
                self.chars@ == old(self)@ + other@.subrange(0, i as int),
            decreases other@.len() - i,
        {
            self.chars.push(other.chars[i]);
            proof {
                assert(self.chars@ =~= old(self)@ + other@.subrange(0, i as int + 1));
            }
            i = i + 1;
        }
        proof {
            assert(self.chars@ =~= old(self)@ + other@);
        }
    }

    /// Splits the row at column `at` (clamped to the length): this row keeps
    /// the prefix, the returned row takes the remainder.
    pub fn split(&mut self, at: usize) -> (rest: Row)
        ensures
            final(self)@ == clamp_slice(old(self)@, 0, at as int),
            rest@ == (if at < old(self)@.len() {
                old(self)@.subrange(at as int, old(self)@.len() as int)
            } else {
                Seq::<char>::empty()
            }),
            old(self).wf() ==> final(self).wf() && rest.wf(),
    {
        let n = self.chars.len();
        let cut = if at > n {
            n
        } else {
            at
        };
        let mut tail: Vec<char> = Vec::new();
        proof {
            assert(tail@ =~= old(self)@.subrange(cut as int, cut as int));
        }
        let mut i: usize = cut;
        while i < n
            invariant
                cut <= i <= n,
                n == old(self)@.len(),
                self.chars@ == old(self)@,
                tail@ == old(self)@.subrange(cut as int, i as int),
            decreases n - i,
        {
            tail.push(self.chars[i]);
            proof {
                assert(tail@ =~= old(self)@.subrange(cut as int, i as int + 1));
            }
            i = i + 1;
        }
        self.chars.truncate(cut);
        proof {
            assert(self.chars@ =~= clamp_slice(old(self)@, 0, at as int));
        }
        Row { chars: tail }
    }
}

} // verus!
