//! Text as sequences of characters: trimming, lines, prefixes, decimal digits.

use vstd::prelude::*;
use vstd::string::*;

verus! {

/// `String::push` appends one character.
pub assume_specification[ String::push ](s: &mut String, c: char)
    ensures
        final(s)@ == old(s)@.push(c),
;

/// The characters with the Unicode `White_Space` property.
pub open spec fn is_white(c: char) -> bool {
    ||| '\u{9}' <= c <= '\u{d}'
    ||| c == '\u{20}'
    ||| c == '\u{85}'
    ||| c == '\u{a0}'
    ||| c == '\u{1680}'
    ||| '\u{2000}' <= c <= '\u{200a}'
    ||| c == '\u{2028}'
    ||| c == '\u{2029}'
    ||| c == '\u{202f}'
    ||| c == '\u{205f}'
    ||| c == '\u{3000}'
}

/// `s` without the white space at its front.
pub open spec fn trim_start_of(s: Seq<char>) -> Seq<char>
    decreases s.len(),
{
    if s.len() > 0 && is_white(s[0]) {
        trim_start_of(s.drop_first())
    } else {
        s
    }
}

/// `s` without the white space at its back.
pub open spec fn trim_end_of(s: Seq<char>) -> Seq<char>
    decreases s.len(),
{
    if s.len() > 0 && is_white(s.last()) {
        trim_end_of(s.drop_last())
    } else {
        s
    }
}

/// `s` without the white space at either end.
pub open spec fn trimmed(s: Seq<char>) -> Seq<char> {
    trim_end_of(trim_start_of(s))
}

/// Whether `c` has the Unicode `White_Space` property.
pub fn is_whitespace(c: char) -> (white: bool)
    ensures
        white == is_white(c),
{
    ('\u{9}' <= c && c <= '\u{d}') || c == '\u{20}' || c == '\u{85}' || c == '\u{a0}'
        || c == '\u{1680}' || ('\u{2000}' <= c && c <= '\u{200a}') || c == '\u{2028}'
        || c == '\u{2029}' || c == '\u{202f}' || c == '\u{205f}' || c == '\u{3000}'
}

/// The characters of a text, in order.
pub fn chars_of(s: &str) -> (chars: Vec<char>)
    ensures
        chars@ == s@,
{
    let mut chars: Vec<char> = Vec::new();
    for c in it: s.chars()
        invariant
            it.seq() == s@,
            chars@ == it.seq().take(it.index() as int),
    {
        chars.push(c);
    }
    chars
}

/// The text made of `chars[from..to]`.
pub fn string_of(chars: &Vec<char>, from: usize, to: usize) -> (s: String)
    requires
        from <= to <= chars@.len(),
    ensures
        s@ == chars@.subrange(from as int, to as int),
{
    let mut s = String::new();
    let mut i: usize = from;
    while i < to
        invariant
            from <= i <= to <= chars@.len(),
            s@ == chars@.subrange(from as int, i as int),
        decreases to - i,
    {
        s.push(chars[i]);
        assert(chars@.subrange(from as int, i + 1) == chars@.subrange(from as int, i as int).push(
            chars@[i as int],
        ));
        i = i + 1;
    }
    s
}

/// The views of a list of texts.
pub open spec fn texts(list: Seq<String>) -> Seq<Seq<char>> {
    Seq::new(list.len(), |i: int| list[i]@)
}

/// Where the first line of `s` ends: the place of its first line feed, or its length.
pub open spec fn line_end(s: Seq<char>) -> int
    decreases s.len(),
{
    if s.len() == 0 || s[0] == '\n' {
        0
    } else {
        1 + line_end(s.drop_first())
    }
}

/// `line` without one carriage return at its back.
pub open spec fn without_return(line: Seq<char>) -> Seq<char> {
    if line.len() > 0 && line.last() == '\r' {
        line.drop_last()
    } else {
        line
    }
}

/// The lines of `s`: a line feed, or a carriage return and a line feed, ends a line and is not
/// part of it; what follows the last line feed is a line if it is not empty.
pub open spec fn lines_of(s: Seq<char>) -> Seq<Seq<char>>
    decreases s.len(),
    via lines_of_shrinks
{
    if s.len() == 0 {
        Seq::empty()
    } else if line_end(s) < s.len() {
        seq![without_return(s.take(line_end(s)))] + lines_of(s.skip(line_end(s) + 1))
    } else {
        seq![s]
    }
}

#[via_fn]
proof fn lines_of_shrinks(s: Seq<char>) {
    if s.len() > 0 {
        line_end_in_range(s);
    }
}

proof fn line_end_in_range(s: Seq<char>)
    ensures
        0 <= line_end(s) <= s.len(),
    decreases s.len(),
{
    if s.len() > 0 && s[0] != '\n' {
        line_end_in_range(s.drop_first());
    }
}

/// The first line feed ends the first line.
proof fn line_end_at(s: Seq<char>, k: int)
    requires
        0 <= k <= s.len(),
        forall|i: int| 0 <= i < k ==> s[i] != '\n',
        k < s.len() ==> s[k] == '\n',
    ensures
        line_end(s) == k,
    decreases s.len(),
{
    if k > 0 {
        let rest = s.drop_first();
        assert forall|i: int| 0 <= i < k - 1 implies rest[i] != '\n' by {
            assert(rest[i] == s[i + 1]);
        }
        line_end_at(rest, k - 1);
    }
}

/// The parts one behind the other, with `sep` between each two.
pub open spec fn joined(parts: Seq<Seq<char>>, sep: Seq<char>) -> Seq<char>
    decreases parts.len(),
{
    if parts.len() == 0 {
        Seq::empty()
    } else if parts.len() == 1 {
        parts[0]
    } else {
        joined(parts.drop_last(), sep) + sep + parts.last()
    }
}

/// Whether `part` stands in `s`, starting at `at`.
pub open spec fn occurs_at(s: Seq<char>, part: Seq<char>, at: int) -> bool {
    0 <= at && at + part.len() <= s.len() && s.subrange(at, at + part.len()) == part
}

/// Whether `part` stands anywhere in `s`.
pub open spec fn occurs_in(s: Seq<char>, part: Seq<char>) -> bool {
    exists|at: int| occurs_at(s, part, at)
}

/// What follows the last `c` in `s`: all of `s` where there is none.
pub open spec fn after_last_of(s: Seq<char>, c: char) -> Seq<char>
    decreases s.len(),
{
    if s.len() == 0 || s.last() == c {
        Seq::empty()
    } else {
        after_last_of(s.drop_last(), c).push(s.last())
    }
}

/// The decimal digit for `d`, below ten.
pub open spec fn digit_of(d: nat) -> char {
    (48 + d) as char
}

/// `n` in decimal, without leading zeros.
pub open spec fn decimal_of(n: nat) -> Seq<char>
    decreases n,
{
    if n < 10 {
        seq![digit_of(n)]
    } else {
        decimal_of(n / 10).push(digit_of(n % 10))
    }
}

/// The bounds between which the trimmed text stands.
fn trim_bounds(chars: &Vec<char>) -> (bounds: (usize, usize))
    ensures
        bounds.0 <= bounds.1 <= chars@.len(),
        chars@.skip(bounds.0 as int) == trim_start_of(chars@),
        chars@.subrange(bounds.0 as int, bounds.1 as int) == trimmed(chars@),
{
    let mut from: usize = 0;
    assert(chars@.skip(0) == chars@);
    while from < chars.len() && is_whitespace(chars[from])
        invariant
            from <= chars@.len(),
            trim_start_of(chars@.skip(from as int)) == trim_start_of(chars@),
        decreases chars@.len() - from,
    {
        assert(chars@.skip(from as int).drop_first() == chars@.skip(from + 1));
        from = from + 1;
    }
    let mut to: usize = chars.len();
    assert(chars@.subrange(from as int, to as int) == chars@.skip(from as int));
    while from < to && is_whitespace(chars[to - 1])
        invariant
            from <= to <= chars@.len(),
            trim_end_of(chars@.subrange(from as int, to as int)) == trimmed(chars@),
        decreases to,
    {
        assert(chars@.subrange(from as int, to as int).drop_last() == chars@.subrange(
            from as int,
            to - 1,
        ));
        to = to - 1;
    }
    (from, to)
}

/// `s` without the white space at either end.
pub fn trim(s: &str) -> (t: String)
    ensures
        t@ == trimmed(s@),
{
    let chars = chars_of(s);
    let (from, to) = trim_bounds(&chars);
    string_of(&chars, from, to)
}

/// `s` without the white space at its front.
pub fn trim_start(s: &str) -> (t: String)
    ensures
        t@ == trim_start_of(s@),
{
    let chars = chars_of(s);
    let (from, _) = trim_bounds(&chars);
    let t = string_of(&chars, from, chars.len());
    assert(chars@.subrange(from as int, chars@.len() as int) == chars@.skip(from as int));
    t
}

/// Whether `part` stands in `chars` at `at`.
fn chars_at(chars: &Vec<char>, part: &Vec<char>, at: usize) -> (here: bool)
    ensures
        here == occurs_at(chars@, part@, at as int),
{
    let len: usize = chars.len();
    if len < part.len() || len - part.len() < at {
        return false;
    }
    let mut i: usize = 0;
    while i < part.len()
        invariant
            i <= part@.len(),
            at + part@.len() <= chars@.len() == len,
            forall|j: int| 0 <= j < i ==> chars@[at + j] == part@[j],
        decreases part@.len() - i,
    {
        if chars[at + i] != part[i] {
            assert(chars@.subrange(at as int, at + part@.len())[i as int] == chars@[at + i]);
            return false;
        }
        i = i + 1;
    }
    assert(chars@.subrange(at as int, at + part@.len()) == part@);
    true
}

/// Whether two texts are the same.
pub fn same(a: &str, b: &str) -> (equal: bool)
    ensures
        equal == (a@ == b@),
{
    let left = chars_of(a);
    let right = chars_of(b);
    assert(left@.subrange(0, left@.len() as int) == left@);
    left.len() == right.len() && chars_at(&left, &right, 0)
}

/// Whether `s` begins with `part`.
pub fn starts_with(s: &str, part: &str) -> (yes: bool)
    ensures
        yes == part@.is_prefix_of(s@),
{
    let chars = chars_of(s);
    let wanted = chars_of(part);
    chars_at(&chars, &wanted, 0)
}

/// Whether `s` ends with `part`.
pub fn ends_with(s: &str, part: &str) -> (yes: bool)
    ensures
        yes == part@.is_suffix_of(s@),
{
    let chars = chars_of(s);
    let wanted = chars_of(part);
    if chars.len() < wanted.len() {
        return false;
    }
    chars_at(&chars, &wanted, chars.len() - wanted.len())
}

/// Whether `part` stands anywhere in `s`.
pub fn contains(s: &str, part: &str) -> (yes: bool)
    ensures
        yes == occurs_in(s@, part@),
{
    let chars = chars_of(s);
    let wanted = chars_of(part);
    let mut at: usize = 0;
    while at < chars.len()
        invariant
            at <= chars@.len(),
            chars@ == s@,
            wanted@ == part@,
            forall|k: int| 0 <= k < at ==> !occurs_at(s@, part@, k),
        decreases chars@.len() - at,
    {
        if chars_at(&chars, &wanted, at) {
            return true;
        }
        at = at + 1;
    }
    chars_at(&chars, &wanted, at)
}

/// The lines of a text.
pub fn lines(s: &str) -> (list: Vec<String>)
    ensures
        texts(list@) == lines_of(s@),
{
    let chars = chars_of(s);
    let mut list: Vec<String> = Vec::new();
    let mut start: usize = 0;
    let mut i: usize = 0;
    assert(chars@.skip(0) == chars@);
    assert(texts(list@) + lines_of(s@) == lines_of(s@));
    while i < chars.len()
        invariant
            start <= i <= chars@.len(),
            chars@ == s@,
            texts(list@) + lines_of(s@.skip(start as int)) == lines_of(s@),
            forall|k: int| start <= k < i ==> chars@[k] != '\n',
        decreases chars@.len() - i,
    {
        if chars[i] == '\n' {
            let ghost rest = s@.skip(start as int);
            let end: usize = if start < i && chars[i - 1] == '\r' { i - 1 } else { i };
            let line = string_of(&chars, start, end);
            let ghost before = texts(list@);
            list.push(line);
            proof {
                assert forall|k: int| 0 <= k < i - start implies rest[k] != '\n' by {
                    assert(rest[k] == chars@[start + k]);
                }
                line_end_at(rest, i - start);
                assert(rest.take(i - start) == chars@.subrange(start as int, i as int));
                assert(line@ == without_return(rest.take(i - start)));
                assert(rest.skip(i - start + 1) == s@.skip(i + 1));
                assert(texts(list@) == before.push(line@));
                assert(before.push(line@) + lines_of(s@.skip(i + 1)) == before + (seq![line@]
                    + lines_of(s@.skip(i + 1))));
            }
            start = i + 1;
        }
        i = i + 1;
    }
    let ghost rest = s@.skip(start as int);
    proof {
        assert forall|k: int| 0 <= k < rest.len() implies rest[k] != '\n' by {
            assert(rest[k] == chars@[start + k]);
        }
        line_end_at(rest, rest.len() as int);
    }
    if start < chars.len() {
        let line = string_of(&chars, start, chars.len());
        let ghost before = texts(list@);
        list.push(line);
        proof {
            assert(line@ == rest);
            assert(texts(list@) == before.push(rest));
            assert(before.push(rest) == before + seq![rest]);
        }
    } else {
        assert(texts(list@) + lines_of(rest) == texts(list@));
    }
    list
}

/// The texts one behind the other, with `sep` between each two.
pub fn join(parts: &Vec<String>, sep: &str) -> (s: String)
    ensures
        s@ == joined(texts(parts@), sep@),
{
    let mut s = String::new();
    let mut i: usize = 0;
    while i < parts.len()
        invariant
            i <= parts@.len(),
            s@ == joined(texts(parts@).take(i as int), sep@),
        decreases parts@.len() - i,
    {
        let ghost shown = texts(parts@).take(i + 1);
        assert(shown.drop_last() == texts(parts@).take(i as int));
        if i > 0 {
            s.append(sep);
        }
        s.append(parts[i].as_str());
        i = i + 1;
    }
    assert(texts(parts@).take(parts@.len() as int) == texts(parts@));
    s
}

/// What follows the last `c` in `s`: all of `s` where there is none.
pub fn after_last(s: &str, c: char) -> (t: String)
    ensures
        t@ == after_last_of(s@, c),
{
    let chars = chars_of(s);
    let mut from: usize = chars.len();
    assert(chars@.subrange(0, chars@.len() as int) == chars@);
    assert(chars@.subrange(from as int, chars@.len() as int) == Seq::<char>::empty());
    while from > 0 && chars[from - 1] != c
        invariant
            from <= chars@.len(),
            after_last_of(chars@, c) == after_last_of(chars@.subrange(0, from as int), c)
                + chars@.subrange(from as int, chars@.len() as int),
        decreases from,
    {
        assert(chars@.subrange(0, from as int).drop_last() == chars@.subrange(0, from - 1));
        assert(chars@.subrange(from - 1, chars@.len() as int) == seq![chars@[from - 1]]
            + chars@.subrange(from as int, chars@.len() as int));
        from = from - 1;
    }
    string_of(&chars, from, chars.len())
}

/// `n` in decimal.
pub fn decimal(n: u64) -> (s: String)
    ensures
        s@ == decimal_of(n as nat),
    decreases n,
{
    let mut s = if n < 10 { String::new() } else { decimal(n / 10) };
    s.push((48u8 + (n % 10) as u8) as char);
    s
}

/// What is left of a text without the white space at its front does not begin with white space, and
/// ends as the text does.
proof fn trim_start_is_suffix(s: Seq<char>)
    ensures
        trim_start_of(s).is_suffix_of(s),
        trim_start_of(s).len() > 0 ==> !is_white(trim_start_of(s)[0]),
    decreases s.len(),
{
    if s.len() > 0 && is_white(s[0]) {
        let rest = s.drop_first();
        trim_start_is_suffix(rest);
        let t = trim_start_of(s);
        assert(s.subrange(s.len() - t.len(), s.len() as int) =~= rest.subrange(
            rest.len() - t.len(),
            rest.len() as int,
        ));
    } else {
        assert(s.subrange(0, s.len() as int) =~= s);
    }
}

/// What is left of a text without the white space at its back does not end with white space, and
/// begins as the text does.
proof fn trim_end_is_prefix(s: Seq<char>)
    ensures
        trim_end_of(s).is_prefix_of(s),
        trim_end_of(s).len() > 0 ==> !is_white(trim_end_of(s).last()),
    decreases s.len(),
{
    if s.len() > 0 && is_white(s.last()) {
        let rest = s.drop_last();
        trim_end_is_prefix(rest);
        let t = trim_end_of(s);
        assert(s.subrange(0, t.len() as int) =~= rest.subrange(0, t.len() as int));
    } else {
        assert(s.subrange(0, s.len() as int) =~= s);
    }
}

/// A trimmed text has no white space at its ends, is a part of the text that it was made from, and
/// is not changed by trimming it again.
pub proof fn trimmed_has_clean_ends(s: Seq<char>)
    ensures
        trimmed(s).len() > 0 ==> !is_white(trimmed(s)[0]) && !is_white(trimmed(s).last()),
        occurs_in(s, trimmed(s)),
        trimmed(trimmed(s)) == trimmed(s),
{
    let front = trim_start_of(s);
    let t = trimmed(s);
    trim_start_is_suffix(s);
    trim_end_is_prefix(front);
    if t.len() > 0 {
        assert(t[0] == front[0]);
    }
    let at = s.len() - front.len();
    assert(s.subrange(at, at + t.len()) =~= front.subrange(0, t.len() as int));
    assert(occurs_at(s, t, at));
}

/// What a digit stands for is known from it.
proof fn digits_are_distinct(a: nat, b: nat)
    requires
        a < 10,
        b < 10,
        digit_of(a) == digit_of(b),
    ensures
        a == b,
{
}

/// All that stands in a decimal number are digits, and there is at least one.
pub proof fn decimal_is_digits(n: nat, i: int)
    ensures
        decimal_of(n).len() > 0,
        0 <= i < decimal_of(n).len() ==> '0' <= decimal_of(n)[i] <= '9',
    decreases n,
{
    if n >= 10 {
        decimal_is_digits(n / 10, i);
    }
}

/// Different numbers are written differently.
pub proof fn decimals_are_distinct(a: nat, b: nat)
    requires
        a != b,
    ensures
        decimal_of(a) != decimal_of(b),
    decreases a,
{
    if decimal_of(a) == decimal_of(b) {
        decimal_is_digits(a / 10, 0);
        decimal_is_digits(b / 10, 0);
        assert(decimal_of(a).last() == digit_of(a % 10));
        assert(decimal_of(b).last() == digit_of(b % 10));
        digits_are_distinct(a % 10, b % 10);
        if a >= 10 && b >= 10 {
            assert(decimal_of(a).drop_last() =~= decimal_of(a / 10));
            assert(decimal_of(b).drop_last() =~= decimal_of(b / 10));
            decimals_are_distinct(a / 10, b / 10);
        } else if a >= 10 {
            assert(decimal_of(a).len() > 1);
        } else if b >= 10 {
            assert(decimal_of(b).len() > 1);
        }
    }
}

/// What trimming takes off the front is white space.
proof fn trim_start_splits(s: Seq<char>) -> (front: Seq<char>)
    ensures
        s == front + trim_start_of(s),
        forall|i: int| 0 <= i < front.len() ==> is_white(#[trigger] front[i]),
    decreases s.len(),
{
    if s.len() > 0 && is_white(s[0]) {
        let rest = trim_start_splits(s.drop_first());
        let front = seq![s[0]] + rest;
        assert(s =~= seq![s[0]] + s.drop_first());
        assert(s =~= front + trim_start_of(s));
        front
    } else {
        assert(s =~= Seq::<char>::empty() + s);
        Seq::empty()
    }
}

/// What trimming takes off the back is white space.
proof fn trim_end_splits(s: Seq<char>) -> (back: Seq<char>)
    ensures
        s == trim_end_of(s) + back,
        forall|i: int| 0 <= i < back.len() ==> is_white(#[trigger] back[i]),
    decreases s.len(),
{
    if s.len() > 0 && is_white(s.last()) {
        let rest = trim_end_splits(s.drop_last());
        let back = rest.push(s.last());
        assert(s =~= s.drop_last().push(s.last()));
        assert(s =~= trim_end_of(s) + back);
        back
    } else {
        assert(s =~= s + Seq::<char>::empty());
        Seq::empty()
    }
}

/// Trimming loses white space alone, and only at the ends: a text is white space, then what is left
/// of it, then white space. What is left neither begins nor ends with white space.
pub proof fn trimmed_loses_white_space_alone(s: Seq<char>) -> (ends: (Seq<char>, Seq<char>))
    ensures
        s == ends.0 + trimmed(s) + ends.1,
        forall|i: int| 0 <= i < ends.0.len() ==> is_white(#[trigger] ends.0[i]),
        forall|i: int| 0 <= i < ends.1.len() ==> is_white(#[trigger] ends.1[i]),
        trimmed(s).len() > 0 ==> !is_white(trimmed(s)[0]) && !is_white(trimmed(s).last()),
{
    let front = trim_start_splits(s);
    let back = trim_end_splits(trim_start_of(s));
    trimmed_has_clean_ends(s);
    assert(s =~= front + trimmed(s) + back);
    (front, back)
}

/// There is just one way to take the white space off a text: what lies between white space at either
/// end, and has none at its own ends, is the trimmed text.
pub proof fn trimmed_is_what_lies_between(front: Seq<char>, core: Seq<char>, back: Seq<char>)
    requires
        forall|i: int| 0 <= i < front.len() ==> is_white(#[trigger] front[i]),
        forall|i: int| 0 <= i < back.len() ==> is_white(#[trigger] back[i]),
        core.len() > 0,
        !is_white(core[0]),
        !is_white(core.last()),
    ensures
        trimmed(front + core + back) == core,
        trim_start_of(front + core + back) == core + back,
    decreases front.len() + back.len(),
{
    let s = front + core + back;
    if front.len() > 0 {
        assert(is_white(front[0]));
        let rest = front.drop_first();
        assert forall|i: int| 0 <= i < rest.len() implies is_white(#[trigger] rest[i]) by {
            assert(rest[i] == front[i + 1]);
        }
        trimmed_is_what_lies_between(rest, core, back);
        assert(s.drop_first() =~= rest + core + back);
    } else {
        assert(s =~= core + back);
        assert(s[0] == core[0]);
        trim_end_is_what_comes_before(core, back);
    }
}

/// What precedes white space at the end, and does not end with any, is left by trimming the end.
proof fn trim_end_is_what_comes_before(core: Seq<char>, back: Seq<char>)
    requires
        forall|i: int| 0 <= i < back.len() ==> is_white(#[trigger] back[i]),
        core.len() > 0,
        !is_white(core.last()),
    ensures
        trim_end_of(core + back) == core,
    decreases back.len(),
{
    let s = core + back;
    if back.len() > 0 {
        let rest = back.drop_last();
        assert(is_white(back[back.len() - 1]));
        assert forall|i: int| 0 <= i < rest.len() implies is_white(#[trigger] rest[i]) by {
            assert(rest[i] == back[i]);
        }
        trim_end_is_what_comes_before(core, rest);
        assert(s.drop_last() =~= core + rest);
        assert(s.last() == back[back.len() - 1]);
    } else {
        assert(s =~= core);
    }
}

/// Lines are cut at line feeds and nowhere else: what stands before the first line feed is the first
/// line, without a carriage return at its end, and what follows it makes the other lines. A text
/// without a line feed is one line, unless it is empty.
pub proof fn lines_are_cut_at_line_feeds(first: Seq<char>, rest: Seq<char>)
    requires
        forall|i: int| 0 <= i < first.len() ==> first[i] != '\n',
    ensures
        lines_of(first.push('\n') + rest) == seq![
            if first.len() > 0 && first.last() == '\r' {
                first.drop_last()
            } else {
                first
            },
        ] + lines_of(rest),
        first.len() > 0 ==> lines_of(first) == seq![first],
        lines_of(Seq::empty()).len() == 0,
{
    let s = first.push('\n') + rest;
    line_end_at(s, first.len() as int);
    assert(s.take(first.len() as int) =~= first);
    assert(s.skip(first.len() as int + 1) =~= rest);
    line_end_at(first, first.len() as int);
}

/// Joining puts the separator between each two texts and nothing else anywhere.
pub proof fn joined_texts_stand_in_order(
    front: Seq<Seq<char>>,
    back: Seq<Seq<char>>,
    part: Seq<char>,
    sep: Seq<char>,
)
    ensures
        joined(seq![part], sep) == part,
        joined(Seq::empty(), sep).len() == 0,
        front.len() > 0 && back.len() > 0 ==> joined(front + back, sep) == joined(front, sep) + sep
            + joined(back, sep),
    decreases back.len(),
{
    if front.len() > 0 && back.len() > 0 {
        let all = front + back;
        assert(all.last() == back.last());
        if back.len() == 1 {
            assert(all.drop_last() =~= front);
            assert(back[0] == back.last());
        } else {
            let fewer = back.drop_last();
            joined_texts_stand_in_order(front, fewer, part, sep);
            assert(all.drop_last() =~= front + fewer);
            assert(joined(all, sep) =~= joined(front, sep) + sep + joined(back, sep));
        }
    }
}

/// A part stands in a text just where the text is something, the part, and something.
pub proof fn part_stands_between_two_texts(before: Seq<char>, part: Seq<char>, after: Seq<char>)
    ensures
        occurs_in(before + part + after, part),
{
    let s = before + part + after;
    assert(s.subrange(before.len() as int, before.len() as int + part.len()) =~= part);
    assert(occurs_at(s, part, before.len() as int));
}

/// Where a part stands in a text, the text is something, the part, and something.
pub proof fn text_around_a_part(s: Seq<char>, part: Seq<char>) -> (around: (Seq<char>, Seq<char>))
    requires
        occurs_in(s, part),
    ensures
        s == around.0 + part + around.1,
{
    let at = choose|at: int| occurs_at(s, part, at);
    let before = s.take(at);
    let after = s.skip(at + part.len());
    assert(s =~= before + part + after);
    (before, after)
}

/// What follows the last of a character is what holds none of them and ends the text.
pub proof fn what_follows_the_last(before: Seq<char>, c: char, after: Seq<char>)
    requires
        !after.contains(c),
    ensures
        after_last_of(before.push(c) + after, c) == after,
        after_last_of(after, c) == after,
    decreases after.len(),
{
    let s = before.push(c) + after;
    if after.len() == 0 {
        assert(s.last() == c);
        assert(after_last_of(s, c) =~= after);
        assert(after_last_of(after, c) =~= after);
    } else {
        let rest = after.drop_last();
        assert(after[after.len() - 1] == after.last());
        assert(after.last() != c);
        assert forall|x: char| rest.contains(x) implies after.contains(x) by {
            let i = choose|i: int| 0 <= i < rest.len() && rest[i] == x;
            assert(after[i] == x);
        }
        what_follows_the_last(before, c, rest);
        assert(s.drop_last() =~= before.push(c) + rest);
        assert(after_last_of(s, c) =~= after);
        assert(after_last_of(after, c) =~= after);
    }
}

/// A number of one digit is written by that digit, and to write a further digit behind a number is
/// to multiply it by ten and add the digit.
pub proof fn decimal_digits_have_their_weight(n: nat, d: nat)
    requires
        d < 10,
    ensures
        decimal_of(d) == seq![(48 + d) as char],
        n > 0 ==> decimal_of(10 * n + d) == decimal_of(n).push((48 + d) as char),
{
    if n > 0 {
        assert((10 * n + d) / 10 == n && (10 * n + d) % 10 == d);
    }
}

/// A list of texts says in each place what the text there says.
pub proof fn texts_are_told_one_by_one(list: Seq<String>, i: int)
    requires
        0 <= i < list.len(),
    ensures
        texts(list).len() == list.len(),
        texts(list)[i] == list[i]@,
{
}

} // verus!
