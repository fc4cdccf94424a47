//! Reading the list of outputs (monitors) that `cosmic-randr list` or `wlr-randr` prints.
use vstd::prelude::*;
use crate::text::{char_vecs_view, chars_of, is_ws, is_ws_exec, lines_of, split_lines, string_of, string_of_range, strings_view, trim_start};
use crate::util::{strip_ansi, stripped};

verus! {

/// How many characters `s` starts with before its first whitespace.
pub open spec fn word_len(s: Seq<char>) -> nat
    decreases s.len(),
{
    if s.len() == 0 || is_ws(s[0]) {
        0
    } else {
        1 + word_len(s.drop_first())
    }
}

/// The first whitespace-separated word of `s` (what `split_whitespace().next()` gives).
pub open spec fn first_word(s: Seq<char>) -> Option<Seq<char>> {
    let t = trim_start(s);
    if t.len() == 0 {
        None
    } else {
        Some(t.take(word_len(t) as int))
    }
}

/// The output a line of the listing names: the first word of a line that, once its
/// ANSI escapes are stripped, is not empty and is not indented by a space or a tab.
pub open spec fn output_name(line: Seq<char>) -> Option<Seq<char>> {
    let l = stripped(line);
    if l.len() == 0 || l[0] == ' ' || l[0] == '\t' {
        None
    } else {
        first_word(l)
    }
}

/// The names of the outputs in `lines`, in order.
pub open spec fn output_names_in(lines: Seq<Seq<char>>) -> Seq<Seq<char>>
    decreases lines.len(),
{
    if lines.len() == 0 {
        Seq::empty()
    } else {
        let rest = output_names_in(lines.drop_last());
        match output_name(lines.last()) {
            Some(n) => rest.push(n),
            None => rest,
        }
    }
}

/// The names of the outputs a listing names, in order. (It splits at each `'\n'`; the
/// `'\r'` that `str::lines` would also drop is whitespace, which ends a name anyway.)
pub open spec fn output_names_of(listing: Seq<char>) -> Seq<Seq<char>> {
    output_names_in(lines_of(listing))
}

/// The first word of `v` (see `first_word`).
fn first_word_exec(v: &[char]) -> (r: Option<String>)
    ensures
        match r {
            Some(w) => first_word(v@) == Some(w@),
            None => first_word(v@) is None,
        },
{
    let mut a: usize = 0;
    assert(v@.skip(0) =~= v@);
    while a < v.len() && is_ws_exec(v[a])
        invariant
            0 <= a <= v@.len(),
            trim_start(v@) == trim_start(v@.skip(a as int)),
        decreases v.len() - a,
    {
        assert(v@.skip(a as int).drop_first() =~= v@.skip(a + 1));
        a += 1;
    }
    assert(trim_start(v@.skip(a as int)) == v@.skip(a as int));
    if a == v.len() {
        return None;
    }
    let mut b: usize = a;
    while b < v.len() && !is_ws_exec(v[b])
        invariant
            a <= b <= v@.len(),
            word_len(v@.skip(a as int)) == (b - a) + word_len(v@.skip(b as int)),
        decreases v.len() - b,
    {
        assert(v@.skip(b as int).drop_first() =~= v@.skip(b + 1));
        b += 1;
    }
    assert(v@.skip(a as int).take((b - a) as int) =~= v@.subrange(a as int, b as int));
    Some(string_of_range(v, a, b))
}

/// The names of the outputs a listing names (see `output_names_of`).
pub fn output_names(listing: &str) -> (r: Vec<String>)
    ensures
        strings_view(r@) == output_names_of(listing@),
{
    let v = chars_of(listing);
    let lines = split_lines(&v);
    let ghost ls = char_vecs_view(lines@);
    let mut r: Vec<String> = Vec::new();
    let mut i: usize = 0;
    assert(ls.take(0) =~= Seq::<Seq<char>>::empty());
    assert(strings_view(r@) =~= Seq::<Seq<char>>::empty());
    while i < lines.len()
        invariant
            0 <= i <= lines@.len(),
            ls == char_vecs_view(lines@),
            ls == lines_of(listing@),
            strings_view(r@) == output_names_in(ls.take(i as int)),
        decreases lines.len() - i,
    {
        assert(ls.take(i + 1).drop_last() =~= ls.take(i as int));
        assert(ls.take(i + 1).last() == lines@[i as int]@);
        let line = string_of(&lines[i]);
        let clean = strip_ansi(line.as_str());
        let c = chars_of(clean.as_str());
        if c.len() > 0 && c[0] != ' ' && c[0] != '\t' {
            match first_word_exec(&c) {
                Some(w) => {
                    let ghost before = strings_view(r@);
                    r.push(w);
                    assert(strings_view(r@) =~= before.push(w@));
                },
                None => {},
            }
        }
        i += 1;
    }
    assert(ls.take(lines@.len() as int) =~= ls);
    r
}

} // verus!
