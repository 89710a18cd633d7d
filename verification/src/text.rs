//! Text on the level of characters: what counts as white space, where lines
//! end, and the few searches the readers need.
//!
//! The executable functions work on one buffer of characters and on index
//! ranges `from..to` into it, so that a caller can cut the result out of the
//! text it started from. Each says what it computes over the spec functions
//! of this module, which are written on `Seq<char>`.

use vstd::prelude::*;

verus! {

/// White space in the sense of Unicode's `White_Space` property.
pub open spec fn is_space(c: char) -> bool {
    let u = c as u32;
    ||| 0x09 <= u <= 0x0d
    ||| u == 0x20
    ||| u == 0x85
    ||| u == 0xa0
    ||| u == 0x1680
    ||| 0x2000 <= u <= 0x200a
    ||| u == 0x2028
    ||| u == 0x2029
    ||| u == 0x202f
    ||| u == 0x205f
    ||| u == 0x3000
}

/// `s` without its leading white space.
pub open spec fn trim_start(s: Seq<char>) -> Seq<char>
    decreases s.len(),
{
    if s.len() > 0 && is_space(s.first()) {
        trim_start(s.drop_first())
    } else {
        s
    }
}

/// `s` without its trailing white space.
pub open spec fn trim_end(s: Seq<char>) -> Seq<char>
    decreases s.len(),
{
    if s.len() > 0 && is_space(s.last()) {
        trim_end(s.drop_last())
    } else {
        s
    }
}

/// `s` without leading and trailing white space.
pub open spec fn trimmed(s: Seq<char>) -> Seq<char> {
    trim_end(trim_start(s))
}

/// The longest suffix of `s` that holds no white space.
pub open spec fn last_word(s: Seq<char>) -> Seq<char>
    decreases s.len(),
{
    if s.len() > 0 && !is_space(s.last()) {
        last_word(s.drop_last()).push(s.last())
    } else {
        Seq::empty()
    }
}

/// The last of the words that white space separates in `s`, if there is one.
pub open spec fn last_token(s: Seq<char>) -> Option<Seq<char>> {
    let t = trim_end(s);
    if t.len() == 0 {
        None
    } else {
        Some(last_word(t))
    }
}

/// `pattern` stands in `s` at index `at`.
pub open spec fn occurs_at(s: Seq<char>, pattern: Seq<char>, at: int) -> bool {
    &&& 0 <= at
    &&& at + pattern.len() <= s.len()
    &&& s.subrange(at, at + pattern.len()) == pattern
}

/// `s` begins with `pattern`.
pub open spec fn has_prefix(s: Seq<char>, pattern: Seq<char>) -> bool {
    occurs_at(s, pattern, 0)
}

/// `pattern` stands somewhere in `s`.
pub open spec fn includes(s: Seq<char>, pattern: Seq<char>) -> bool {
    exists|at: int| occurs_at(s, pattern, at)
}

/// The number of characters before the first line feed of `s`.
pub open spec fn line_len(s: Seq<char>) -> nat
    decreases s.len(),
{
    if s.len() == 0 || s.first() == '\n' {
        0
    } else {
        1 + line_len(s.drop_first())
    }
}

/// The lines of `s`: the pieces between line feeds, without them. A line
/// feed at the very end opens no further line, so the empty text has no
/// lines. A carriage return is an ordinary character here; it is white
/// space, and goes with trimming.
pub open spec fn lines_of(s: Seq<char>) -> Seq<Seq<char>>
    decreases s.len(),
{
    if s.len() == 0 {
        Seq::empty()
    } else {
        let n = line_len(s);
        if n >= s.len() {
            seq![s]
        } else {
            seq![s.take(n as int)] + lines_of(s.skip(n as int + 1))
        }
    }
}

/// The characters of `s`, one by one.
pub fn chars_of(s: &str) -> (chars: Vec<char>)
    ensures
        chars@ == s@,
{
    let mut chars: Vec<char> = Vec::new();
    for c in it: s.chars()
        invariant
            it.seq() == s@,
            chars@ == s@.take(it.index() as int),
    {
        chars.push(c);
    }
    chars
}

/// Whether `c` is white space.
pub fn is_whitespace(c: char) -> (r: bool)
    ensures
        r == is_space(c),
{
    let u: u32 = c as u32;
    (0x09 <= u && u <= 0x0d) || u == 0x20 || u == 0x85 || u == 0xa0 || u == 0x1680 || (0x2000 <= u
        && u <= 0x200a) || u == 0x2028 || u == 0x2029 || u == 0x202f || u == 0x205f || u == 0x3000
}

/// The range that is left of `from..to` when the white space at both ends
/// is taken away.
pub fn trim(chars: &[char], from: usize, to: usize) -> (r: (usize, usize))
    requires
        from <= to <= chars@.len(),
    ensures
        from <= r.0 <= r.1 <= to,
        chars@.subrange(r.0 as int, r.1 as int) == trimmed(
            chars@.subrange(from as int, to as int),
        ),
{
    let mut a: usize = from;
    while a < to && is_whitespace(chars[a])
        invariant
            from <= a <= to <= chars@.len(),
            trim_start(chars@.subrange(from as int, to as int)) == trim_start(
                chars@.subrange(a as int, to as int),
            ),
        decreases to - a,
    {
        assert(chars@.subrange(a as int, to as int).drop_first() == chars@.subrange(
            a + 1,
            to as int,
        ));
        a += 1;
    }
    let mut b: usize = to;
    while b > a && is_whitespace(chars[b - 1])
        invariant
            a <= b <= to <= chars@.len(),
            trim_end(chars@.subrange(a as int, to as int)) == trim_end(
                chars@.subrange(a as int, b as int),
            ),
        decreases b - a,
    {
        assert(chars@.subrange(a as int, b as int).drop_last() == chars@.subrange(
            a as int,
            b - 1,
        ));
        b -= 1;
    }
    (a, b)
}

/// The range of the last word in `from..to`, where white space separates
/// words; `None` where the range holds white space only.
pub fn find_last_token(chars: &[char], from: usize, to: usize) -> (r: Option<(usize, usize)>)
    requires
        from <= to <= chars@.len(),
    ensures
        match r {
            Some((a, b)) => {
                &&& from <= a < b <= to
                &&& last_token(chars@.subrange(from as int, to as int)) == Some(
                    chars@.subrange(a as int, b as int),
                )
            },
            None => last_token(chars@.subrange(from as int, to as int)) is None,
        },
{
    let mut b: usize = to;
    while b > from && is_whitespace(chars[b - 1])
        invariant
            from <= b <= to <= chars@.len(),
            trim_end(chars@.subrange(from as int, to as int)) == trim_end(
                chars@.subrange(from as int, b as int),
            ),
        decreases b - from,
    {
        assert(chars@.subrange(from as int, b as int).drop_last() == chars@.subrange(
            from as int,
            b - 1,
        ));
        b -= 1;
    }
    if b == from {
        return None;
    }
    let mut a: usize = b;
    while a > from && !is_whitespace(chars[a - 1])
        invariant
            from <= a <= b <= to <= chars@.len(),
            last_word(chars@.subrange(from as int, b as int)) == last_word(
                chars@.subrange(from as int, a as int),
            ) + chars@.subrange(a as int, b as int),
        decreases a - from,
    {
        assert(chars@.subrange(from as int, a as int).drop_last() == chars@.subrange(
            from as int,
            a - 1,
        ));
        assert(last_word(chars@.subrange(from as int, a - 1)).push(chars@[a - 1])
            + chars@.subrange(a as int, b as int) == last_word(
            chars@.subrange(from as int, a - 1),
        ) + chars@.subrange(a - 1, b as int));
        a -= 1;
    }
    assert(chars@.subrange(a as int, b as int) == Seq::<char>::empty() + chars@.subrange(
        a as int,
        b as int,
    ));
    Some((a, b))
}

/// Whether `pattern` stands in `from..to` at index `at` of the buffer.
pub fn matches_at(chars: &[char], from: usize, to: usize, pattern: &[char], at: usize) -> (r: bool)
    requires
        from <= at <= to <= chars@.len(),
    ensures
        r == occurs_at(chars@.subrange(from as int, to as int), pattern@, at - from),
{
    let m = pattern.len();
    if m > to - at {
        return false;
    }
    let ghost s = chars@.subrange(from as int, to as int);
    let mut k: usize = 0;
    while k < m
        invariant
            from <= at <= to <= chars@.len(),
            m == pattern@.len(),
            at + m <= to,
            k <= m,
            s == chars@.subrange(from as int, to as int),
            forall|j: int| 0 <= j < k ==> chars@[at + j] == pattern@[j],
        decreases m - k,
    {
        if chars[at + k] != pattern[k] {
            assert(s.subrange(at - from, at - from + m)[k as int] == chars@[at + k]);
            return false;
        }
        k += 1;
    }
    assert(s.subrange(at - from, at - from + m) =~= pattern@);
    true
}

/// Whether `from..to` begins with `pattern`.
pub fn starts_with(chars: &[char], from: usize, to: usize, pattern: &[char]) -> (r: bool)
    requires
        from <= to <= chars@.len(),
    ensures
        r == has_prefix(chars@.subrange(from as int, to as int), pattern@),
{
    matches_at(chars, from, to, pattern, from)
}

/// Whether `pattern` stands somewhere in `from..to`.
pub fn contains(chars: &[char], from: usize, to: usize, pattern: &[char]) -> (r: bool)
    requires
        from <= to <= chars@.len(),
    ensures
        r == includes(chars@.subrange(from as int, to as int), pattern@),
{
    let ghost s = chars@.subrange(from as int, to as int);
    let mut at: usize = from;
    while at < to
        invariant
            from <= at <= to <= chars@.len(),
            s == chars@.subrange(from as int, to as int),
            forall|i: int| 0 <= i < at - from ==> !occurs_at(s, pattern@, i),
        decreases to - at,
    {
        if matches_at(chars, from, to, pattern, at) {
            return true;
        }
        at += 1;
    }
    matches_at(chars, from, to, pattern, to)
}

/// The lines of the text, each as its range in the buffer.
pub fn split_lines(chars: &[char]) -> (spans: Vec<(usize, usize)>)
    ensures
        spans@.len() == lines_of(chars@).len(),
        forall|i: int|
            0 <= i < spans@.len() ==> {
                &&& (#[trigger] spans@[i]).0 <= spans@[i].1 <= chars@.len()
                &&& chars@.subrange(spans@[i].0 as int, spans@[i].1 as int) == lines_of(chars@)[i]
            },
{
    let n = chars.len();
    let mut spans: Vec<(usize, usize)> = Vec::new();
    let mut pos: usize = 0;
    let ghost mut done: Seq<Seq<char>> = Seq::empty();
    assert(chars@.skip(0) == chars@);
    while pos < n
        invariant
            pos <= n == chars@.len(),
            done.len() == spans@.len(),
            lines_of(chars@) == done + lines_of(chars@.skip(pos as int)),
            forall|i: int|
                0 <= i < spans@.len() ==> {
                    &&& (#[trigger] spans@[i]).0 <= spans@[i].1 <= chars@.len()
                    &&& chars@.subrange(spans@[i].0 as int, spans@[i].1 as int) == done[i]
                },
        decreases n - pos,
    {
        let ghost rest = chars@.skip(pos as int);
        let mut e: usize = pos;
        while e < n && chars[e] != '\n'
            invariant
                pos <= e <= n == chars@.len(),
                line_len(chars@.skip(pos as int)) == (e - pos) + line_len(chars@.skip(e as int)),
            decreases n - e,
        {
            assert(chars@.skip(e as int).drop_first() == chars@.skip(e + 1));
            e += 1;
        }
        let ghost line = chars@.subrange(pos as int, e as int);
        proof {
            assert(rest.take(e - pos) == line);
            if e < n {
                assert(rest.skip(e - pos + 1) == chars@.skip(e + 1));
                assert(lines_of(rest) == seq![line] + lines_of(chars@.skip(e + 1)));
            } else {
                assert(rest.take(e - pos) == rest);
                assert(lines_of(chars@.skip(n as int)) == Seq::<Seq<char>>::empty());
                assert(lines_of(rest) == seq![line] + lines_of(chars@.skip(n as int)));
            }
            done = done.push(line);
        }
        spans.push((pos, e));
        if e < n {
            pos = e + 1;
        } else {
            pos = n;
        }
        assert(lines_of(chars@) == done + lines_of(chars@.skip(pos as int)));
    }
    assert(lines_of(chars@) == done);
    spans
}

/// Whether two texts are the same.
pub fn same_text(a: &str, b: &str) -> (r: bool)
    ensures
        r == (a@ == b@),
{
    let x = chars_of(a);
    let y = chars_of(b);
    if x.len() != y.len() {
        return false;
    }
    assert(x@.subrange(0, x@.len() as int) == x@);
    matches_at(x.as_slice(), 0, x.len(), y.as_slice(), 0)
}

} // verus!
