//! Text building blocks shared by every reply formatter.
//!
//! Strings are modelled by their sequence of characters (`Seq<char>`); every
//! function here states its result over that model.

use vstd::prelude::*;
use vstd::string::*;

verus! {

/// The character sequences of a list of strings.
pub open spec fn views(items: Seq<String>) -> Seq<Seq<char>> {
    items.map_values(|s: String| s@)
}

/// The decimal digit character for `d`, meant for `d < 10`.
pub open spec fn digit(d: nat) -> char {
    ((48 + d) as u8) as char
}

/// The decimal notation of `n`, without sign or leading zeros.
pub open spec fn decimal(n: nat) -> Seq<char>
    decreases n,
{
    if n < 10 {
        seq![digit(n)]
    } else {
        decimal(n / 10).push(digit(n % 10))
    }
}

/// `parts` laid end to end with `sep` between neighbours.
pub open spec fn joined(parts: Seq<Seq<char>>, sep: Seq<char>) -> Seq<char>
    decreases parts.len(),
{
    if parts.len() == 0 {
        Seq::empty()
    } else if parts.len() == 1 {
        parts[0]
    } else {
        joined(parts.drop_last(), sep) + sep + parts.last()
    }
}

/// All of `parts` laid end to end.
pub open spec fn flattened(parts: Seq<Seq<char>>) -> Seq<char>
    decreases parts.len(),
{
    if parts.len() == 0 {
        Seq::empty()
    } else {
        flattened(parts.drop_last()) + parts.last()
    }
}

/// Whether `pat` occurs in `s` starting at position `at`.
pub open spec fn occurs_at(s: Seq<char>, pat: Seq<char>, at: int) -> bool {
    0 <= at && at + pat.len() <= s.len() && s.subrange(at, at + pat.len()) == pat
}

/// Whether `pat` occurs anywhere in `s`.
pub open spec fn contains(s: Seq<char>, pat: Seq<char>) -> bool {
    exists|at: int| occurs_at(s, pat, at)
}

/// `s` with every occurrence of the non-empty `from` replaced by `to`,
/// scanning left to right and never re-reading what was replaced.
pub open spec fn replaced(s: Seq<char>, from: Seq<char>, to: Seq<char>) -> Seq<char>
    decreases s.len(),
{
    if from.len() == 0 || s.len() < from.len() {
        s
    } else if s.take(from.len() as int) == from {
        to + replaced(s.skip(from.len() as int), from, to)
    } else {
        seq![s[0]] + replaced(s.skip(1), from, to)
    }
}

/// `s` right-aligned in a field of `width` characters, padded with spaces.
pub open spec fn right_aligned(s: Seq<char>, width: nat) -> Seq<char> {
    if s.len() >= width {
        s
    } else {
        Seq::new((width - s.len()) as nat, |i: int| ' ') + s
    }
}

/// `c` with the ASCII letters `a` to `z` mapped to `A` to `Z`.
pub open spec fn ascii_upper(c: char) -> char {
    if 'a' <= c && c <= 'z' {
        ((c as u8) - 32) as char
    } else {
        c
    }
}

/// Whether `c` is white space, as `char::is_whitespace` tells.
pub uninterp spec fn is_whitespace(c: char) -> bool;

/// Whether `s` holds nothing but white space.
pub open spec fn blank(s: Seq<char>) -> bool {
    forall|i: int| 0 <= i < s.len() ==> is_whitespace(#[trigger] s[i])
}

/// `char::is_whitespace`, which tells whether a character has the Unicode
/// property `White_Space`. The contract only names the answer.
#[verifier::external_body]
fn whitespace(c: char) -> (answer: bool)
    ensures
        answer == is_whitespace(c),
{
    c.is_whitespace()
}

/// Appends one character through `String::push`, which adds `c` at the end
/// of the string and changes nothing else.
#[verifier::external_body]
pub(crate) fn push_char(s: &mut String, c: char)
    ensures
        final(s)@ == old(s)@.push(c),
{
    s.push(c)
}

/// The characters of `s`, in order.
pub fn chars_of(s: &str) -> (v: Vec<char>)
    ensures
        v@ == s@,
{
    let mut v: Vec<char> = Vec::new();
    for c in it: s.chars()
        invariant
            v@ == it.seq().take(it.index() as int),
            it.seq() == s@,
    {
        v.push(c);
    }
    v
}

/// The string made of the characters of `v`.
pub fn string_of(v: &Vec<char>) -> (s: String)
    ensures
        s@ == v@,
{
    let mut s = String::new();
    let mut i: usize = 0;
    while i < v.len()
        invariant
            i <= v.len(),
            s@ == v@.take(i as int),
        decreases v.len() - i,
    {
        push_char(&mut s, v[i]);
        i += 1;
    }
    s
}

/// Whether two strings hold the same characters.
pub fn same_text(a: &str, b: &str) -> (same: bool)
    ensures
        same == (a@ == b@),
{
    let x = chars_of(a);
    let y = chars_of(b);
    if x.len() != y.len() {
        return false;
    }
    let mut i: usize = 0;
    while i < x.len()
        invariant
            i <= x.len(),
            x.len() == y.len(),
            x@ == a@,
            y@ == b@,
            x@.take(i as int) == y@.take(i as int),
        decreases x.len() - i,
    {
        if x[i] != y[i] {
            assert(a@[i as int] != b@[i as int]);
            return false;
        }
        assert(x@.take(i + 1) == x@.take(i as int).push(x@[i as int]));
        assert(y@.take(i + 1) == y@.take(i as int).push(y@[i as int]));
        i += 1;
    }
    assert(x@ == x@.take(x.len() as int));
    assert(y@ == y@.take(y.len() as int));
    true
}

fn push_decimal(s: &mut String, n: u64)
    ensures
        final(s)@ == old(s)@ + decimal(n as nat),
    decreases n,
{
    if n >= 10 {
        push_decimal(s, n / 10);
    }
    let d: u64 = n % 10;
    push_char(s, ((48 + d) as u8) as char);
}

/// The decimal notation of `n`.
pub fn decimal_string(n: u64) -> (s: String)
    ensures
        s@ == decimal(n as nat),
{
    let mut s = String::new();
    push_decimal(&mut s, n);
    s
}

/// Joins `parts` with `sep` between neighbours.
pub fn join(parts: &Vec<String>, sep: &str) -> (s: String)
    ensures
        s@ == joined(views(parts@), sep@),
{
    let mut s = String::new();
    let mut i: usize = 0;
    while i < parts.len()
        invariant
            i <= parts.len(),
            s@ == joined(views(parts@).take(i as int), sep@),
        decreases parts.len() - i,
    {
        if i > 0 {
            s.append(sep);
        }
        s.append(parts[i].as_str());
        proof {
            let all = views(parts@);
            let next = all.take(i + 1);
            assert(next.drop_last() == all.take(i as int));
            assert(next.last() == parts@[i as int]@);
        }
        i += 1;
    }
    assert(views(parts@).take(parts.len() as int) == views(parts@));
    s
}

fn matches_at(s: &Vec<char>, at: usize, pat: &Vec<char>) -> (found: bool)
    requires
        at + pat.len() <= s.len(),
    ensures
        found == occurs_at(s@, pat@, at as int),
{
    let mut k: usize = 0;
    while k < pat.len()
        invariant
            k <= pat.len(),
            at + pat.len() <= s.len(),
            s@.subrange(at as int, at + k) == pat@.take(k as int),
        decreases pat.len() - k,
    {
        if s[at + k] != pat[k] {
            assert(s@.subrange(at as int, at + pat.len())[k as int] != pat@[k as int]);
            return false;
        }
        assert(s@.subrange(at as int, at + k + 1) == s@.subrange(at as int, at + k).push(
            s@[at + k],
        ));
        assert(pat@.take(k + 1) == pat@.take(k as int).push(pat@[k as int]));
        k += 1;
    }
    assert(pat@.take(pat.len() as int) == pat@);
    true
}

/// Whether `pat` occurs in `s`.
pub fn has_substring(s: &str, pat: &str) -> (found: bool)
    ensures
        found == contains(s@, pat@),
{
    let text = chars_of(s);
    let p = chars_of(pat);
    if p.len() > text.len() {
        return false;
    }
    let last: usize = text.len() - p.len();
    let mut i: usize = 0;
    loop
        invariant
            i <= last,
            last == text.len() - p.len(),
            p.len() <= text.len(),
            text@ == s@,
            p@ == pat@,
            forall|at: int| 0 <= at < i ==> !occurs_at(text@, p@, at),
        decreases last - i,
    {
        if matches_at(&text, i, &p) {
            assert(occurs_at(s@, pat@, i as int));
            return true;
        }
        if i == last {
            return false;
        }
        i += 1;
    }
}

/// Whether `s` begins with `prefix`.
pub fn starts_with(s: &str, prefix: &str) -> (found: bool)
    ensures
        found == occurs_at(s@, prefix@, 0),
{
    let text = chars_of(s);
    let p = chars_of(prefix);
    if p.len() > text.len() {
        return false;
    }
    matches_at(&text, 0, &p)
}

/// What follows `prefix` in `s`, if `s` begins with it.
pub fn strip_prefix(s: &str, prefix: &str) -> (rest: Option<String>)
    ensures
        match rest {
            Some(r) => occurs_at(s@, prefix@, 0) && r@ == s@.skip(prefix@.len() as int),
            None => !occurs_at(s@, prefix@, 0),
        },
{
    let text = chars_of(s);
    let p = chars_of(prefix);
    if p.len() > text.len() {
        return None;
    }
    if !matches_at(&text, 0, &p) {
        return None;
    }
    let mut r = String::new();
    let mut i: usize = p.len();
    while i < text.len()
        invariant
            p.len() <= i <= text.len(),
            r@ == text@.subrange(p.len() as int, i as int),
        decreases text.len() - i,
    {
        push_char(&mut r, text[i]);
        i += 1;
    }
    assert(text@.subrange(p.len() as int, text.len() as int) == text@.skip(p.len() as int));
    Some(r)
}

/// Replaces every occurrence of `from` in `s` by `to`.
pub fn replace(s: &str, from: &str, to: &str) -> (out: String)
    requires
        from@.len() > 0,
    ensures
        out@ == replaced(s@, from@, to@),
{
    let text = chars_of(s);
    let f = chars_of(from);
    let mut out = String::new();
    let mut i: usize = 0;
    assert(text@.skip(0) == text@);
    assert(Seq::<char>::empty() + text@ == text@);
    while i < text.len()
        invariant
            i <= text.len(),
            f@ == from@,
            f.len() > 0,
            replaced(text@, f@, to@) == out@ + replaced(text@.skip(i as int), f@, to@),
        decreases text.len() - i,
    {
        let ghost rest = text@.skip(i as int);
        if f.len() <= text.len() - i && matches_at(&text, i, &f) {
            assert(rest.take(f.len() as int) == text@.subrange(i as int, i + f.len()));
            assert(rest.skip(f.len() as int) == text@.skip(i + f.len()));
            out.append(to);
            i += f.len();
        } else {
            if f.len() <= text.len() - i {
                assert(rest.take(f.len() as int) == text@.subrange(i as int, i + f.len()));
            }
            assert(rest.skip(1) == text@.skip(i + 1));
            assert(rest.len() >= f.len() ==> replaced(rest, f@, to@) == seq![rest[0]] + replaced(
                rest.skip(1),
                f@,
                to@,
            ));
            push_char(&mut out, text[i]);
            i += 1;
            proof {
                if rest.len() < f.len() {
                    lemma_short_tail(rest, f@, to@);
                }
            }
        }
    }
    assert(text@.skip(text.len() as int) == Seq::<char>::empty());
    out
}

/// Replacing what does not occur changes nothing.
pub proof fn lemma_replace_absent(s: Seq<char>, from: Seq<char>, to: Seq<char>)
    requires
        !contains(s, from),
    ensures
        replaced(s, from, to) == s,
    decreases s.len(),
{
    if from.len() > 0 && s.len() >= from.len() {
        assert(!occurs_at(s, from, 0));
        assert(s.take(from.len() as int) == s.subrange(0, from.len() as int));
        assert forall|at: int| !occurs_at(s.skip(1), from, at) by {
            if occurs_at(s.skip(1), from, at) {
                assert(s.skip(1).subrange(at, at + from.len()) == s.subrange(
                    at + 1,
                    at + 1 + from.len(),
                ));
                assert(occurs_at(s, from, at + 1));
            }
        }
        lemma_replace_absent(s.skip(1), from, to);
        assert(s == seq![s[0]] + s.skip(1));
    }
}

/// A text shorter than the pattern is left as it is, one character at a time.
proof fn lemma_short_tail(s: Seq<char>, from: Seq<char>, to: Seq<char>)
    requires
        0 < s.len() < from.len(),
    ensures
        replaced(s, from, to) == seq![s[0]] + replaced(s.skip(1), from, to),
{
    assert(replaced(s.skip(1), from, to) == s.skip(1));
    assert(s == seq![s[0]] + s.skip(1));
}

/// `s` right-aligned in `width` characters.
pub fn align_right(s: &str, width: usize) -> (out: String)
    ensures
        out@ == right_aligned(s@, width as nat),
{
    let length: usize = s.unicode_len();
    let mut out = String::new();
    if length < width {
        let pad: usize = width - length;
        let mut k: usize = 0;
        while k < pad
            invariant
                k <= pad,
                out@ == Seq::new(k as nat, |i: int| ' '),
            decreases pad - k,
        {
            push_char(&mut out, ' ');
            k += 1;
        }
    } else {
        assert(out@ + s@ == s@);
    }
    out.append(s);
    out
}

/// Whether nothing is left of `s` once the white space around it is
/// trimmed away.
pub fn is_blank(s: &str) -> (empty: bool)
    ensures
        empty == blank(s@),
{
    let chars = chars_of(s);
    let mut i: usize = 0;
    while i < chars.len()
        invariant
            i <= chars.len(),
            chars@ == s@,
            forall|k: int| 0 <= k < i ==> is_whitespace(#[trigger] chars@[k]),
        decreases chars.len() - i,
    {
        if !whitespace(chars[i]) {
            return false;
        }
        i += 1;
    }
    true
}

/// `c` in upper case if it is an ASCII lower-case letter, else `c`.
pub fn to_ascii_upper(c: char) -> (u: char)
    ensures
        u == ascii_upper(c),
{
    if c >= 'a' && c <= 'z' {
        ((c as u8) - 32) as char
    } else {
        c
    }
}

} // verus!
