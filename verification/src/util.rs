//! Small string utilities: truncation by character count and ANSI stripping.
use vstd::prelude::*;
use crate::text::{chars_of, ends_with, push_char, string_of, string_of_range};

verus! {

/// The three dots appended to a truncated string.
pub open spec fn ellipsis() -> Seq<char> {
    seq!['.', '.', '.']
}

/// `s` cut to at most `max` characters; when it had to be cut and there is room,
/// the last three kept positions hold "...".
pub open spec fn truncated(s: Seq<char>, max: nat) -> Seq<char> {
    if s.len() <= max {
        s
    } else if max <= 3 {
        s.take(max as int)
    } else {
        s.take(max - 3) + ellipsis()
    }
}

/// UTF-8 safe string truncation by character count.
/// If the string exceeds `max_chars`, truncates and appends "...".
/// When `max_chars` is 3 or less, returns exactly `max_chars` characters
/// without ellipsis (no room for the "..." suffix).
pub fn truncate_str(s: &str, max_chars: usize) -> (r: String)
    ensures
        r@ == truncated(s@, max_chars as nat),
{
    let v = chars_of(s);
    if v.len() <= max_chars {
        string_of(&v)
    } else if max_chars <= 3 {
        let r = string_of_range(&v, 0, max_chars);
        assert(v@.subrange(0, max_chars as int) =~= v@.take(max_chars as int));
        r
    } else {
        let mut r = string_of_range(&v, 0, max_chars - 3);
        push_char(&mut r, '.');
        push_char(&mut r, '.');
        push_char(&mut r, '.');
        assert(r@ =~= v@.take(max_chars - 3) + ellipsis());
        r
    }
}

/// What truncation promises: the result never has more than `max` characters,
/// is the input itself when that fits, and otherwise keeps a prefix of the input,
/// followed by "..." when `max` leaves room for it.
pub proof fn lemma_truncated(s: Seq<char>, max: nat)
    ensures
        truncated(s, max).len() <= max,
        s.len() <= max ==> truncated(s, max) == s,
        s.len() > max && max <= 3 ==> truncated(s, max) == s.take(max as int),
        s.len() > max && max > 3 ==> {
            &&& truncated(s, max).len() == max
            &&& truncated(s, max).take(max - 3) == s.take(max - 3)
            &&& ends_with(truncated(s, max), ellipsis())
        },
{
    if s.len() > max && max > 3 {
        let t = truncated(s, max);
        assert(t.take(max - 3) =~= s.take(max - 3));
        assert(t.subrange(t.len() - 3, t.len() as int) =~= ellipsis());
    }
}

/// The ESC character that opens an ANSI escape sequence.
pub open spec fn esc() -> char {
    '\u{1b}'
}

/// `c` is an ASCII letter (ends an escape sequence).
pub open spec fn is_ascii_alpha(c: char) -> bool {
    ('a' <= c <= 'z') || ('A' <= c <= 'Z')
}

/// The text kept from `s`, and whether `s` ends inside an escape sequence:
/// an ESC starts a sequence, which runs up to and including the next ASCII letter.
pub open spec fn strip_state(s: Seq<char>) -> (Seq<char>, bool)
    decreases s.len(),
{
    if s.len() == 0 {
        (seq![], false)
    } else {
        let (out, in_esc) = strip_state(s.drop_last());
        let c = s.last();
        if in_esc {
            (out, !is_ascii_alpha(c))
        } else if c == esc() {
            (out, true)
        } else {
            (out.push(c), false)
        }
    }
}

/// `s` with its ANSI escape sequences removed.
pub open spec fn stripped(s: Seq<char>) -> Seq<char> {
    strip_state(s).0
}

/// Strip ANSI escape sequences from a string.
pub fn strip_ansi(s: &str) -> (r: String)
    ensures
        r@ == stripped(s@),
{
    let v = chars_of(s);
    let mut out = String::new();
    let mut in_esc = false;
    let mut i: usize = 0;
    while i < v.len()
        invariant
            0 <= i <= v@.len(),
            v@ == s@,
            (out@, in_esc) == strip_state(v@.take(i as int)),
        decreases v.len() - i,
    {
        let c = v[i];
        assert(v@.take(i + 1).drop_last() =~= v@.take(i as int));
        if in_esc {
            in_esc = !(('a' <= c && c <= 'z') || ('A' <= c && c <= 'Z'));
        } else if c == '\u{1b}' {
            in_esc = true;
        } else {
            push_char(&mut out, c);
        }
        i += 1;
    }
    assert(v@.take(v@.len() as int) =~= v@);
    out
}

/// Nothing that strips escape sequences leaves an ESC character behind, and the
/// result is never longer than the input.
pub proof fn lemma_stripped_has_no_esc(s: Seq<char>)
    ensures
        !stripped(s).contains(esc()),
        stripped(s).len() <= s.len(),
    decreases s.len(),
{
    if s.len() > 0 {
        lemma_stripped_has_no_esc(s.drop_last());
    }
}

/// Text without ESC characters passes through unchanged.
pub proof fn lemma_stripped_plain(s: Seq<char>)
    requires
        !s.contains(esc()),
    ensures
        stripped(s) == s,
        strip_state(s).1 == false,
    decreases s.len(),
{
    if s.len() > 0 {
        assert(!s.drop_last().contains(esc())) by {
            if s.drop_last().contains(esc()) {
                let k = choose|k: int| 0 <= k < s.drop_last().len() && s.drop_last()[k] == esc();
                assert(s[k] == esc());
            }
        }
        lemma_stripped_plain(s.drop_last());
        assert(s.last() != esc()) by {
            assert(s[s.len() - 1] == s.last());
        }
        assert(s.drop_last().push(s.last()) =~= s);
    }
}

} // verus!
