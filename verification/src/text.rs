//! Character-level helpers shared by the parser and the renderer.
//!
//! Every contract here is stated over `Seq<char>`, the view of `str` and
//! `String`.

use vstd::prelude::*;

verus! {

/// `String::push`: appends one character at the end of the string.
pub assume_specification[ std::string::String::push ](s: &mut std::string::String, c: char)
    ensures
        final(s)@ == old(s)@.push(c),
;

/// `str == str`: two string slices are equal exactly when they hold the same
/// characters in the same order.
pub assume_specification[ <str as PartialEq>::eq ](a: &str, b: &str) -> (r: bool)
    ensures
        r == (a@ == b@),
;

/// Whether `c` has the Unicode property `White_Space`.
pub uninterp spec fn whitespace(c: char) -> bool;

/// `char::is_whitespace`: a fixed property of the character alone.
pub assume_specification[ char::is_whitespace ](c: char) -> (r: bool)
    ensures
        r == whitespace(c),
;

/// Whether `c` has the Unicode property `Alphabetic`.
pub uninterp spec fn alphabetic(c: char) -> bool;

/// `char::is_alphabetic`: a fixed property of the character alone.
pub assume_specification[ char::is_alphabetic ](c: char) -> (r: bool)
    ensures
        r == alphabetic(c),
;

/// Whether `c` is alphabetic or numeric in the sense of Unicode.
pub uninterp spec fn alphanumeric(c: char) -> bool;

/// `char::is_alphanumeric`: a fixed property of the character alone.
pub assume_specification[ char::is_alphanumeric ](c: char) -> (r: bool)
    ensures
        r == alphanumeric(c),
;

/// The characters of `s`, collected into a vector.
pub fn to_chars(s: &str) -> (r: Vec<char>)
    ensures
        r@ == s@,
{
    let mut out: Vec<char> = Vec::new();
    for c in iter: s.chars()
        invariant
            iter.seq() == s@,
            out@ == s@.take(iter.index() as int),
    {
        assert(s@.take(iter.index() + 1) == s@.take(iter.index() as int).push(c));
        out.push(c);
    }
    assert(s@.take(s@.len() as int) == s@);
    out
}

/// A string holding the characters `v[from..to]`.
pub fn from_chars_range(v: &Vec<char>, from: usize, to: usize) -> (r: String)
    requires
        from <= to <= v@.len(),
    ensures
        r@ == v@.subrange(from as int, to as int),
{
    let mut out = String::new();
    let mut i: usize = from;
    while i < to
        invariant
            from <= i <= to <= v@.len(),
            out@ == v@.subrange(from as int, i as int),
        decreases to - i,
    {
        assert(v@.subrange(from as int, i + 1) == v@.subrange(from as int, i as int).push(v@[i as int]));
        out.push(v[i]);
        i = i + 1;
    }
    out
}

/// A string holding the characters of `v`.
pub fn from_chars(v: &Vec<char>) -> (r: String)
    ensures
        r@ == v@,
{
    let r = from_chars_range(v, 0, v.len());
    assert(v@.subrange(0, v@.len() as int) == v@);
    r
}

/// An owned copy of `s`.
pub fn owned(s: &str) -> (r: String)
    ensures
        r@ == s@,
{
    String::from_str(s)
}

/// `a` followed by `b`.
pub fn concat2(a: &str, b: &str) -> (r: String)
    ensures
        r@ == a@ + b@,
{
    let mut out = String::from_str(a);
    out.append(b);
    out
}

/// `a`, `b` and `c` in this order.
pub fn concat3(a: &str, b: &str, c: &str) -> (r: String)
    ensures
        r@ == a@ + b@ + c@,
{
    let mut out = String::from_str(a);
    out.append(b);
    out.append(c);
    out
}

/// Whether `s` begins with the character `c`.
pub open spec fn starts_with_char(s: Seq<char>, c: char) -> bool {
    s.len() > 0 && s[0] == c
}

/// Whether `s` ends with the character `c`.
pub open spec fn ends_with_char(s: Seq<char>, c: char) -> bool {
    s.len() > 0 && s[s.len() - 1] == c
}

/// The pieces of `items[from..]`, each but the last followed by `sep`.
pub open spec fn join_from(items: Seq<Seq<char>>, sep: Seq<char>, from: int) -> Seq<char>
    decreases items.len() - from,
{
    if from < 0 || from >= items.len() {
        Seq::empty()
    } else if from == items.len() - 1 {
        items[from]
    } else {
        items[from] + sep + join_from(items, sep, from + 1)
    }
}

/// The pieces of `items` with `sep` between neighbours.
pub open spec fn joined(items: Seq<Seq<char>>, sep: Seq<char>) -> Seq<char> {
    join_from(items, sep, 0)
}

/// The views of a sequence of strings.
pub open spec fn views(items: Seq<String>) -> Seq<Seq<char>> {
    Seq::new(items.len(), |i: int| items[i]@)
}

/// Joining one more piece: the join of `items.push(last)` is the join of
/// `items`, the separator if `items` is not empty, and `last`.
pub proof fn lemma_join_push(items: Seq<Seq<char>>, sep: Seq<char>, last: Seq<char>, from: int)
    requires
        0 <= from <= items.len(),
    ensures
        join_from(items.push(last), sep, from) == if from == items.len() {
            last
        } else {
            join_from(items, sep, from) + sep + last
        },
    decreases items.len() - from,
{
    let more = items.push(last);
    if from == items.len() {
    } else if from == items.len() - 1 {
        assert(join_from(more, sep, from + 1) == last);
        assert(more[from] == items[from]);
    } else {
        lemma_join_push(items, sep, last, from + 1);
        assert(more[from] == items[from]);
        assert(join_from(more, sep, from) == items[from] + sep + (join_from(items, sep, from + 1)
            + sep + last));
        assert(items[from] + sep + (join_from(items, sep, from + 1) + sep + last) == (items[from]
            + sep + join_from(items, sep, from + 1)) + sep + last);
    }
}

/// The strings of `items` with `sep` between neighbours.
pub fn join(items: &Vec<String>, sep: &str) -> (r: String)
    ensures
        r@ == joined(views(items@), sep@),
{
    let mut out = String::new();
    let mut i: usize = 0;
    while i < items.len()
        invariant
            i <= items@.len(),
            out@ == joined(views(items@).take(i as int), sep@),
        decreases items.len() - i,
    {
        proof {
            let done = views(items@).take(i as int);
            lemma_join_push(done, sep@, items@[i as int]@, 0);
            assert(views(items@).take(i + 1) == done.push(items@[i as int]@));
        }
        if i > 0 {
            out.append(sep);
        }
        out.append(items[i].as_str());
        i = i + 1;
    }
    assert(views(items@).take(items@.len() as int) == views(items@));
    out
}

/// The index of the first character of `s` at or after `from` that is not
/// whitespace, or the length of `s` if there is none.
pub open spec fn skip_blank(s: Seq<char>, from: int) -> int
    decreases s.len() - from,
{
    if 0 <= from < s.len() && whitespace(s[from]) {
        skip_blank(s, from + 1)
    } else {
        from
    }
}

/// The end of the last character of `s` before `to` that is not whitespace,
/// never less than `low`.
pub open spec fn back_blank(s: Seq<char>, low: int, to: int) -> int
    decreases to - low,
{
    if low < to <= s.len() && whitespace(s[to - 1]) {
        back_blank(s, low, to - 1)
    } else {
        to
    }
}

/// `s` without its leading and trailing whitespace.
pub open spec fn trimmed(s: Seq<char>) -> Seq<char> {
    let start = skip_blank(s, 0);
    s.subrange(start, back_blank(s, start, s.len() as int))
}

proof fn lemma_skip_blank_bounds(s: Seq<char>, from: int)
    requires
        0 <= from <= s.len(),
    ensures
        from <= skip_blank(s, from) <= s.len(),
    decreases s.len() - from,
{
    if from < s.len() && whitespace(s[from]) {
        lemma_skip_blank_bounds(s, from + 1);
    }
}

proof fn lemma_back_blank_bounds(s: Seq<char>, low: int, to: int)
    requires
        0 <= low <= to <= s.len(),
    ensures
        low <= back_blank(s, low, to) <= to,
    decreases to - low,
{
    if low < to && whitespace(s[to - 1]) {
        lemma_back_blank_bounds(s, low, to - 1);
    }
}

/// `s` without the whitespace at its two ends.
pub fn trim(s: &str) -> (r: String)
    ensures
        r@ == trimmed(s@),
{
    let v = to_chars(s);
    let mut start: usize = 0;
    while start < v.len() && v[start].is_whitespace()
        invariant
            start <= v@.len(),
            skip_blank(v@, start as int) == skip_blank(v@, 0),
        decreases v@.len() - start,
    {
        start = start + 1;
    }
    let mut end: usize = v.len();
    while end > start && v[end - 1].is_whitespace()
        invariant
            start <= end <= v@.len(),
            back_blank(v@, start as int, end as int) == back_blank(v@, start as int, v@.len() as int),
        decreases end - start,
    {
        end = end - 1;
    }
    from_chars_range(&v, start, end)
}

/// The decimal digit for `d`.
pub open spec fn digit(d: int) -> char {
    if d == 0 {
        '0'
    } else if d == 1 {
        '1'
    } else if d == 2 {
        '2'
    } else if d == 3 {
        '3'
    } else if d == 4 {
        '4'
    } else if d == 5 {
        '5'
    } else if d == 6 {
        '6'
    } else if d == 7 {
        '7'
    } else if d == 8 {
        '8'
    } else {
        '9'
    }
}

/// `n` written in decimal, without leading zeros.
pub open spec fn decimal(n: nat) -> Seq<char>
    decreases n,
{
    if n < 10 {
        seq![digit(n as int)]
    } else {
        decimal(n / 10).push(digit((n % 10) as int))
    }
}

fn digit_char(d: usize) -> (r: char)
    requires
        d < 10,
    ensures
        r == digit(d as int),
{
    if d == 0 {
        '0'
    } else if d == 1 {
        '1'
    } else if d == 2 {
        '2'
    } else if d == 3 {
        '3'
    } else if d == 4 {
        '4'
    } else if d == 5 {
        '5'
    } else if d == 6 {
        '6'
    } else if d == 7 {
        '7'
    } else if d == 8 {
        '8'
    } else {
        '9'
    }
}

/// `n` written in decimal.
pub fn number_text(n: usize) -> (r: String)
    ensures
        r@ == decimal(n as nat),
    decreases n,
{
    if n < 10 {
        let mut out = String::new();
        out.push(digit_char(n));
        assert(out@ == seq![digit(n as int)]);
        out
    } else {
        let mut out = number_text(n / 10);
        out.push(digit_char(n % 10));
        out
    }
}

/// `unit` repeated `count` times.
pub open spec fn repeated(unit: Seq<char>, count: nat) -> Seq<char>
    decreases count,
{
    if count == 0 {
        Seq::empty()
    } else {
        repeated(unit, (count - 1) as nat) + unit
    }
}

/// `unit` repeated `count` times.
pub fn repeat(unit: &str, count: usize) -> (r: String)
    ensures
        r@ == repeated(unit@, count as nat),
{
    let mut out = String::new();
    let mut i: usize = 0;
    while i < count
        invariant
            i <= count,
            out@ == repeated(unit@, i as nat),
        decreases count - i,
    {
        out.append(unit);
        i = i + 1;
    }
    out
}


/// Whether `s` begins with the character `c`.
pub fn first_is(s: &str, c: char) -> (r: bool)
    ensures
        r == starts_with_char(s@, c),
{
    let chars = to_chars(s);
    chars.len() > 0 && chars[0] == c
}

/// Whether `s` ends with the character `c`.
pub fn last_is(s: &str, c: char) -> (r: bool)
    ensures
        r == ends_with_char(s@, c),
{
    let chars = to_chars(s);
    chars.len() > 0 && chars[chars.len() - 1] == c
}

/// `s` without its first character.
pub fn without_first(s: &str) -> (r: String)
    requires
        s@.len() > 0,
    ensures
        r@ == s@.skip(1),
{
    let chars = to_chars(s);
    let r = from_chars_range(&chars, 1, chars.len());
    assert(s@.skip(1) == s@.subrange(1, s@.len() as int));
    r
}

/// `s` without its last character.
pub fn without_last(s: &str) -> (r: String)
    requires
        s@.len() > 0,
    ensures
        r@ == s@.drop_last(),
{
    let chars = to_chars(s);
    from_chars_range(&chars, 0, chars.len() - 1)
}

} // verus!
