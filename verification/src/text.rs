//! Character-sequence helpers shared by the buffer and the render pipeline.

use vstd::prelude::*;

verus! {

/// Relies on `String::push` from the standard library: it appends exactly
/// the one given character to the end of the string.
pub assume_specification[ String::push ](s: &mut String, ch: char)
    ensures
        final(s)@ == old(s)@.push(ch),
;

/// Whether `s` is free of newline characters.
pub open spec fn no_newline(s: Seq<char>) -> bool {
    forall|i: int| 0 <= i < s.len() ==> s[i] != '\n'
}

/// The slice of `s` between `start` and `end`, both clamped to the actual
/// length: an out-of-range `end` is truncated, a `start` beyond the end
/// yields the empty sequence.
pub open spec fn clamp_slice(s: Seq<char>, start: int, end: int) -> Seq<char> {
    let hi = if end > s.len() { s.len() as int } else { end };
    let lo = if start > hi { hi } else { start };
    s.subrange(lo, hi)
}

/// Rendering is idempotent: slicing an already-rendered slice over its
/// full span returns it unchanged, and it is total — any `start` at or
/// past the end yields the empty sequence rather than a failure.
pub proof fn lemma_clamp_slice_idempotent(s: Seq<char>, start: int, end: int)
    requires
        0 <= start <= end,
    ensures
        clamp_slice(clamp_slice(s, start, end), 0, end - start) == clamp_slice(s, start, end),
        start >= s.len() ==> clamp_slice(s, start, end) == Seq::<char>::empty(),
{
    assert(clamp_slice(clamp_slice(s, start, end), 0, end - start) =~= clamp_slice(s, start, end));
    if start >= s.len() {
        assert(clamp_slice(s, start, end) =~= Seq::<char>::empty());
    }
}

/// The character for one decimal digit.
pub open spec fn dec_digit(d: int) -> char {
    if d == 0 {
        '0'
    } else if d == 1 {
        '1'
    } else if d == 2 {
        '2'
    } else if d == 3 {
        '3'
    } else if d == 4 {
        '4'
    } else if d == 5 {
        '5'
    } else if d == 6 {
        '6'
    } else if d == 7 {
        '7'
    } else if d == 8 {
        '8'
    } else {
        '9'
    }
}

/// The usual decimal notation of `n`, most significant digit first, with
/// no leading zeros (except for zero itself).
pub open spec fn dec_rep(n: nat) -> Seq<char>
    decreases n,
{
    if n < 10 {
        seq![dec_digit(n as int)]
    } else {
        dec_rep(n / 10).push(dec_digit((n % 10) as int))
    }
}

/// A run of `n` spaces (none when `n` is negative).
pub open spec fn spaces(n: int) -> Seq<char> {
    Seq::new(
        if n < 0 {
            0 as nat
        } else {
            n as nat
        },
        |i: int| ' ',
    )
}

/// The character for the digit `d`.
fn digit_char(d: usize) -> (c: char)
    requires
        d < 10,
    ensures
        c == dec_digit(d as int),
{
    if d == 0 {
        '0'
    } else if d == 1 {
        '1'
    } else if d == 2 {
        '2'
    } else if d == 3 {
        '3'
    } else if d == 4 {
        '4'
    } else if d == 5 {
        '5'
    } else if d == 6 {
        '6'
    } else if d == 7 {
        '7'
    } else if d == 8 {
        '8'
    } else {
        '9'
    }
}

/// The decimal notation of `n` as characters.
pub fn decimal_chars(n: usize) -> (v: Vec<char>)
    ensures
        v@ == dec_rep(n as nat),
    decreases n,
{
    if n < 10 {
        let mut v: Vec<char> = Vec::new();
        v.push(digit_char(n));
        proof {
            assert(v@ =~= dec_rep(n as nat));
        }
        v
    } else {
        let mut v = decimal_chars(n / 10);
        v.push(digit_char(n % 10));
        v
    }
}

/// A vector of `n` spaces.
pub fn space_chars(n: usize) -> (v: Vec<char>)
    ensures
        v@ == spaces(n as int),
{
    let mut v: Vec<char> = Vec::new();
    let mut i: usize = 0;
    while i < n
        invariant
            i <= n,
            v@ == spaces(i as int),
        decreases n - i,
    {
        v.push(' ');
        proof {
            assert(v@ =~= spaces(i as int + 1));
        }
        i = i + 1;
    }
    proof {
        assert(v@ =~= spaces(n as int));
    }
    v
}

/// Whether `c` is a control character (the Unicode `Cc` category).
pub open spec fn spec_is_control(c: char) -> bool {
    (c as u32) < 32 || (127 <= (c as u32) && (c as u32) <= 159)
}

/// Whether `c` is a control character.
pub fn is_control_char(c: char) -> (b: bool)
    ensures
        b == spec_is_control(c),
{
    let u = c as u32;
    u < 32 || (127 <= u && u <= 159)
}

/// Copies the characters of `s` into a vector, one per character.
pub fn str_chars(s: &str) -> (v: Vec<char>)
    ensures
        v@ == s@,
{
    let n = s.unicode_len();
    let mut v: Vec<char> = Vec::new();
    proof {
        assert(v@ =~= s@.subrange(0, 0));
    }
    let mut i: usize = 0;
    while i < n
        invariant
            i <= n,
            n == s@.len(),
            v@ == s@.subrange(0, i as int),
        decreases n - i,
    {
        v.push(s.get_char(i));
        proof {
            assert(v@ =~= s@.subrange(0, i as int + 1));
        }
        i = i + 1;
    }
    proof {
        assert(s@.subrange(0, n as int) =~= s@);
    }
    v
}

/// Builds a string out of a character vector, one character per entry.
pub fn chars_to_string(v: &Vec<char>) -> (s: String)
    ensures
        s@ == v@,
{
    let mut s = String::new();
    proof {
        assert(s@ =~= v@.subrange(0, 0));
    }
    let mut i: usize = 0;
    while i < v.len()
        invariant
            i <= v@.len(),
            s@ == v@.subrange(0, i as int),
        decreases v@.len() - i,
    {
        s.push(v[i]);
        proof {
            assert(s@ =~= v@.subrange(0, i as int + 1));
        }
        i = i + 1;
    }
    proof {
        assert(v@.subrange(0, v@.len() as int) =~= v@);
    }
    s
}

} // verus!
