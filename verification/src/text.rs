//! Character-level helpers shared by the normalization rules.
//!
//! Text is modelled as `Seq<char>`, the view of `str` and `String`. The
//! executable helpers work on a `Vec<char>` copy of their input so that every
//! position can be read in constant time.

use vstd::prelude::*;

verus! {

/// The view of an optional text.
pub open spec fn text_view(value: Option<String>) -> Option<Seq<char>> {
    match value {
        Some(text) => Some(text@),
        None => None,
    }
}

/// The view of an optional borrowed text.
pub open spec fn borrowed_view(value: Option<&str>) -> Option<Seq<char>> {
    match value {
        Some(text) => Some(text@),
        None => None,
    }
}

/// The views of a sequence of texts.
pub open spec fn text_views(all: Seq<String>) -> Seq<Seq<char>> {
    Seq::new(all.len(), |k: int| all[k]@)
}

/// Whether `c` carries the Unicode `White_Space` property.
pub open spec fn is_whitespace(c: char) -> bool {
    let n = c as u32;
    (0x09 <= n <= 0x0D) || n == 0x20 || n == 0x85 || n == 0xA0 || n == 0x1680 || (0x2000 <= n
        <= 0x200A) || n == 0x2028 || n == 0x2029 || n == 0x202F || n == 0x205F || n == 0x3000
}

/// Decides [`is_whitespace`] for one character.
pub fn char_is_whitespace(c: char) -> (r: bool)
    ensures
        r == is_whitespace(c),
{
    let n: u32 = c as u32;
    (0x09 <= n && n <= 0x0D) || n == 0x20 || n == 0x85 || n == 0xA0 || n == 0x1680 || (0x2000 <= n
        && n <= 0x200A) || n == 0x2028 || n == 0x2029 || n == 0x202F || n == 0x205F || n == 0x3000
}

/// `s` without its leading whitespace.
pub open spec fn trim_start(s: Seq<char>) -> Seq<char>
    decreases s.len(),
{
    if s.len() > 0 && is_whitespace(s[0]) {
        trim_start(s.drop_first())
    } else {
        s
    }
}

/// `s` without its trailing whitespace.
pub open spec fn trim_end(s: Seq<char>) -> Seq<char>
    decreases s.len(),
{
    if s.len() > 0 && is_whitespace(s.last()) {
        trim_end(s.drop_last())
    } else {
        s
    }
}

/// `s` without leading and trailing whitespace.
pub open spec fn trim(s: Seq<char>) -> Seq<char> {
    trim_end(trim_start(s))
}

/// Whether `s` is empty once trimmed.
pub open spec fn is_blank(s: Seq<char>) -> bool {
    trim(s).len() == 0
}

/// Whether some character of `s` is whitespace.
pub open spec fn has_whitespace(s: Seq<char>) -> bool {
    exists|i: int| 0 <= i < s.len() && is_whitespace(#[trigger] s[i])
}

/// Whether `needle` occurs in `hay` starting at position `at`.
pub open spec fn occurs_at(hay: Seq<char>, needle: Seq<char>, at: int) -> bool {
    0 <= at && at + needle.len() <= hay.len() && hay.subrange(at, at + needle.len()) == needle
}

/// Whether `needle` occurs somewhere in `hay`.
pub open spec fn contains(hay: Seq<char>, needle: Seq<char>) -> bool {
    exists|at: int| occurs_at(hay, needle, at)
}

/// Whether `at` is the first position at or after `from` where `needle`
/// occurs in `hay`.
pub open spec fn first_occurrence(hay: Seq<char>, needle: Seq<char>, from: int, at: int) -> bool {
    from <= at && occurs_at(hay, needle, at) && forall|k: int|
        from <= k < at ==> !occurs_at(hay, needle, k)
}

/// The first position where `needle` occurs in `hay`, if it occurs.
pub open spec fn find(hay: Seq<char>, needle: Seq<char>) -> Option<int> {
    if exists|at: int| first_occurrence(hay, needle, 0, at) {
        Some(choose|at: int| first_occurrence(hay, needle, 0, at))
    } else {
        None
    }
}

/// The position at which a text is first found is the one that [`find`]
/// names.
pub proof fn find_is_first(hay: Seq<char>, needle: Seq<char>, at: int)
    requires
        first_occurrence(hay, needle, 0, at),
    ensures
        find(hay, needle) == Some(at),
        contains(hay, needle),
{
    let chosen = choose|at: int| first_occurrence(hay, needle, 0, at);
    if chosen < at {
        assert(!occurs_at(hay, needle, chosen));
    }
    if at < chosen {
        assert(!occurs_at(hay, needle, at));
    }
}

/// A text that occurs nowhere is not found.
pub proof fn find_is_none(hay: Seq<char>, needle: Seq<char>)
    requires
        forall|k: int| 0 <= k ==> !occurs_at(hay, needle, k),
    ensures
        find(hay, needle) is None,
        !contains(hay, needle),
{
}

/// The first position of the character `c` in `s`, or the length of `s`
/// where `c` is not in it.
pub open spec fn position_of(s: Seq<char>, c: char) -> nat
    decreases s.len(),
{
    if s.len() == 0 || s[0] == c {
        0
    } else {
        1 + position_of(s.drop_first(), c)
    }
}

/// [`position_of`] is within the sequence, names `c` where it is short of the
/// end, and nothing before it is `c`.
pub proof fn position_of_bounds(s: Seq<char>, c: char)
    ensures
        0 <= position_of(s, c) <= s.len(),
        position_of(s, c) < s.len() ==> s[position_of(s, c) as int] == c,
        forall|k: int| 0 <= k < position_of(s, c) ==> s[k] != c,
        position_of(s, c) == s.len() <==> !s.contains(c),
    decreases s.len(),
{
    if s.len() == 0 || s[0] == c {
    } else {
        let tail = s.drop_first();
        position_of_bounds(tail, c);
        assert forall|k: int| 0 <= k < position_of(s, c) implies s[k] != c by {
            if k > 0 {
                assert(s[k] == tail[k - 1]);
            }
        }
        if position_of(s, c) < s.len() {
            assert(s[position_of(s, c) as int] == tail[position_of(tail, c) as int]);
        }
        if s.contains(c) {
            let k = choose|k: int| 0 <= k < s.len() && s[k] == c;
            assert(tail[k - 1] == c);
        }
    }
}

/// A line without the carriage return that ends it, if one does.
pub open spec fn without_carriage_return(line: Seq<char>) -> Seq<char> {
    if line.len() > 0 && line.last() == '\r' {
        line.drop_last()
    } else {
        line
    }
}

/// The lines of a text. A line ends at a line feed, or at a carriage return
/// followed by a line feed; the end of the last line may be missing, and a
/// text that ends with a line ending has no empty line after it.
pub open spec fn lines(s: Seq<char>) -> Seq<Seq<char>>
    decreases s.len(),
{
    if s.len() == 0 {
        Seq::empty()
    } else {
        let end = position_of(s, '\n') as int;
        if end >= s.len() {
            seq![s]
        } else {
            seq![without_carriage_return(s.take(end))] + lines(s.skip(end + 1))
        }
    }
}

/// The digits of `n` in base ten, without leading zeros.
pub open spec fn decimal(n: nat) -> Seq<char>
    decreases n,
{
    if n < 10 {
        seq![digit(n)]
    } else {
        decimal(n / 10).push(digit(n % 10))
    }
}

/// The character of a digit below ten.
pub open spec fn digit(n: nat) -> char {
    (('0' as u8) + (n % 10) as u8) as char
}

/// Whether `a` comes before `b` in the order of texts: the order of the
/// first characters in which they differ, a text coming after its proper
/// prefixes.
pub open spec fn text_lt(a: Seq<char>, b: Seq<char>) -> bool
    decreases a.len(),
{
    if b.len() == 0 {
        false
    } else if a.len() == 0 {
        true
    } else if a[0] != b[0] {
        a[0] < b[0]
    } else {
        text_lt(a.drop_first(), b.drop_first())
    }
}

/// No text comes before itself.
pub proof fn text_lt_irreflexive(a: Seq<char>)
    ensures
        !text_lt(a, a),
    decreases a.len(),
{
    if a.len() > 0 {
        text_lt_irreflexive(a.drop_first());
    }
}

/// Of two different texts one comes before the other.
pub proof fn text_lt_total(a: Seq<char>, b: Seq<char>)
    ensures
        text_lt(a, b) || a == b || text_lt(b, a),
    decreases a.len(),
{
    if a.len() > 0 && b.len() > 0 && a[0] == b[0] {
        text_lt_total(a.drop_first(), b.drop_first());
        if a.drop_first() == b.drop_first() {
            assert(a =~= seq![a[0]] + a.drop_first());
            assert(b =~= seq![b[0]] + b.drop_first());
        }
    } else if a.len() == 0 && b.len() == 0 {
        assert(a =~= b);
    }
}

/// The order of texts is transitive.
pub proof fn text_lt_transitive(a: Seq<char>, b: Seq<char>, c: Seq<char>)
    requires
        text_lt(a, b),
        text_lt(b, c),
    ensures
        text_lt(a, c),
    decreases a.len(),
{
    if a.len() > 0 && a[0] == b[0] && b[0] == c[0] {
        text_lt_transitive(a.drop_first(), b.drop_first(), c.drop_first());
    }
}

/// Whether `a` comes before `b` in the order of optional texts: an absent
/// text comes before every text.
pub open spec fn optional_text_lt(a: Option<Seq<char>>, b: Option<Seq<char>>) -> bool {
    match (a, b) {
        (None, Some(_)) => true,
        (Some(x), Some(y)) => text_lt(x, y),
        _ => false,
    }
}

/// Whether the pair `a` comes before the pair `b`: by the first texts, and by
/// the second ones where the first are equal.
pub open spec fn key_lt(a: (Seq<char>, Option<Seq<char>>), b: (Seq<char>, Option<Seq<char>>)) -> bool {
    text_lt(a.0, b.0) || (a.0 == b.0 && optional_text_lt(a.1, b.1))
}

/// No pair comes before itself.
pub proof fn key_lt_irreflexive(a: (Seq<char>, Option<Seq<char>>))
    ensures
        !key_lt(a, a),
{
    text_lt_irreflexive(a.0);
    if let Some(x) = a.1 {
        text_lt_irreflexive(x);
    }
}

/// Of two different pairs one comes before the other.
pub proof fn key_lt_total(a: (Seq<char>, Option<Seq<char>>), b: (Seq<char>, Option<Seq<char>>))
    ensures
        key_lt(a, b) || a == b || key_lt(b, a),
{
    text_lt_total(a.0, b.0);
    if let (Some(x), Some(y)) = (a.1, b.1) {
        text_lt_total(x, y);
    }
}

/// The order of pairs is transitive.
pub proof fn key_lt_transitive(
    a: (Seq<char>, Option<Seq<char>>),
    b: (Seq<char>, Option<Seq<char>>),
    c: (Seq<char>, Option<Seq<char>>),
)
    requires
        key_lt(a, b),
        key_lt(b, c),
    ensures
        key_lt(a, c),
{
    if text_lt(a.0, b.0) && text_lt(b.0, c.0) {
        text_lt_transitive(a.0, b.0, c.0);
    }
    if let (Some(x), Some(y), Some(z)) = (a.1, b.1, c.1) {
        if text_lt(x, y) && text_lt(y, z) {
            text_lt_transitive(x, y, z);
        }
    }
}

/// Trimming leaves a sequence unchanged when it neither starts nor ends with
/// whitespace.
pub proof fn trim_of_tight(s: Seq<char>)
    requires
        s.len() > 0 ==> !is_whitespace(s[0]) && !is_whitespace(s.last()),
    ensures
        trim(s) == s,
{
}

/// The trimmed text is a contiguous part of the text that neither starts
/// nor ends with whitespace.
pub proof fn trim_is_tight(s: Seq<char>)
    ensures
        trim(s).len() <= s.len(),
        trim(s).len() > 0 ==> !is_whitespace(trim(s)[0]) && !is_whitespace(trim(s).last()),
        trim(trim(s)) == trim(s),
{
    trim_start_is_tight(s);
    trim_end_is_tight(trim_start(s));
    trim_of_tight(trim(s));
}

proof fn trim_start_is_tight(s: Seq<char>)
    ensures
        trim_start(s).len() <= s.len(),
        trim_start(s).len() > 0 ==> !is_whitespace(trim_start(s)[0]),
    decreases s.len(),
{
    if s.len() > 0 && is_whitespace(s[0]) {
        trim_start_is_tight(s.drop_first());
    }
}

proof fn trim_end_is_tight(s: Seq<char>)
    ensures
        trim_end(s).len() <= s.len(),
        trim_end(s).len() > 0 ==> !is_whitespace(trim_end(s).last()) && trim_end(s)[0] == s[0],
    decreases s.len(),
{
    if s.len() > 0 && is_whitespace(s.last()) {
        trim_end_is_tight(s.drop_last());
    }
}

/// `String::push`: appends one character to the end of the string.
#[verifier::external_body]
pub(crate) fn push_char(s: &mut String, c: char)
    ensures
        final(s)@ == old(s)@.push(c),
{
    s.push(c)
}

/// The characters of `s`, in order.
pub fn to_chars(s: &str) -> (r: Vec<char>)
    ensures
        r@ == s@,
{
    let mut out: Vec<char> = Vec::new();
    for c in it: s.chars()
        invariant
            out@ == s@.take(it.index() as int),
            it.seq() == s@,
    {
        out.push(c);
    }
    out
}

/// The string made of `v[from..to]`.
pub fn to_text(v: &Vec<char>, from: usize, to: usize) -> (r: String)
    requires
        from <= to <= v.len(),
    ensures
        r@ == v@.subrange(from as int, to as int),
{
    let mut out = String::new();
    let mut i: usize = from;
    while i < to
        invariant
            from <= i <= to <= v.len(),
            out@ == v@.subrange(from as int, i as int),
        decreases to - i,
    {
        push_char(&mut out, v[i]);
        i += 1;
    }
    out
}

/// Appends `v[from..to]` to `out`.
pub fn push_chars(out: &mut String, v: &Vec<char>, from: usize, to: usize)
    requires
        from <= to <= v.len(),
    ensures
        final(out)@ == old(out)@ + v@.subrange(from as int, to as int),
{
    let mut i: usize = from;
    while i < to
        invariant
            from <= i <= to <= v.len(),
            out@ == old(out)@ + v@.subrange(from as int, i as int),
        decreases to - i,
    {
        push_char(out, v[i]);
        i += 1;
    }
}

/// Whether the two texts hold the same characters.
pub fn text_eq(a: &str, b: &str) -> (r: bool)
    ensures
        r == (a@ == b@),
{
    let x = to_chars(a);
    let y = to_chars(b);
    chars_eq(&x, &y)
}

/// Whether the two character vectors are equal.
pub fn chars_eq(x: &Vec<char>, y: &Vec<char>) -> (r: bool)
    ensures
        r == (x@ == y@),
{
    if x.len() != y.len() {
        return false;
    }
    let mut i: usize = 0;
    while i < x.len()
        invariant
            i <= x.len(),
            x.len() == y.len(),
            forall|k: int| 0 <= k < i ==> x@[k] == y@[k],
        decreases x.len() - i,
    {
        if x[i] != y[i] {
            return false;
        }
        i += 1;
    }
    assert(x@ =~= y@);
    true
}

/// The bounds of the trimmed part of `v`.
pub fn trim_bounds(v: &Vec<char>) -> (r: (usize, usize))
    ensures
        r.0 <= r.1 <= v.len(),
        v@.subrange(r.0 as int, r.1 as int) == trim(v@),
{
    let n = v.len();
    let mut start: usize = 0;
    assert(v@.subrange(0, n as int) == v@);
    while start < n && char_is_whitespace(v[start])
        invariant
            start <= n == v.len(),
            trim_start(v@) == trim_start(v@.subrange(start as int, n as int)),
        decreases n - start,
    {
        assert(v@.subrange(start as int, n as int).drop_first() == v@.subrange(
            start as int + 1,
            n as int,
        ));
        start += 1;
    }
    assert(trim_start(v@) == v@.subrange(start as int, n as int));
    let mut end: usize = n;
    while end > start && char_is_whitespace(v[end - 1])
        invariant
            start <= end <= n == v.len(),
            trim(v@) == trim_end(v@.subrange(start as int, end as int)),
        decreases end - start,
    {
        assert(v@.subrange(start as int, end as int).drop_last() == v@.subrange(
            start as int,
            end as int - 1,
        ));
        end -= 1;
    }
    (start, end)
}

/// The text of `s` without leading and trailing whitespace.
pub fn trimmed(s: &str) -> (r: String)
    ensures
        r@ == trim(s@),
{
    let v = to_chars(s);
    let (start, end) = trim_bounds(&v);
    to_text(&v, start, end)
}

/// Whether some character of `v` is whitespace.
pub fn chars_have_whitespace(v: &Vec<char>) -> (r: bool)
    ensures
        r == has_whitespace(v@),
{
    let mut i: usize = 0;
    while i < v.len()
        invariant
            i <= v.len(),
            forall|k: int| 0 <= k < i ==> !is_whitespace(#[trigger] v@[k]),
        decreases v.len() - i,
    {
        if char_is_whitespace(v[i]) {
            return true;
        }
        i += 1;
    }
    false
}

/// Whether `needle` occurs in `hay` at position `at`.
pub fn matches_at(hay: &Vec<char>, needle: &Vec<char>, at: usize) -> (r: bool)
    ensures
        r == occurs_at(hay@, needle@, at as int),
{
    if needle.len() > hay.len() || at > hay.len() - needle.len() {
        return false;
    }
    let mut i: usize = 0;
    while i < needle.len()
        invariant
            i <= needle.len(),
            at + needle.len() <= hay.len(),
            forall|k: int| 0 <= k < i ==> hay@[at + k] == needle@[k],
        decreases needle.len() - i,
    {
        if hay[at + i] != needle[i] {
            assert(hay@.subrange(at as int, at + needle.len())[i as int] == hay@[at + i]);
            return false;
        }
        i += 1;
    }
    assert(hay@.subrange(at as int, at + needle.len()) =~= needle@);
    true
}

/// The first position at or after `from` where `needle` occurs in `hay`.
pub fn find_from(hay: &Vec<char>, needle: &Vec<char>, from: usize) -> (r: Option<usize>)
    ensures
        match r {
            Some(at) => first_occurrence(hay@, needle@, from as int, at as int),
            None => forall|k: int| from <= k ==> !occurs_at(hay@, needle@, k),
        },
{
    if needle.len() > hay.len() {
        return None;
    }
    let last: usize = hay.len() - needle.len();
    if from > last {
        return None;
    }
    let mut at: usize = from;
    loop
        invariant
            from <= at <= last,
            last == hay.len() - needle.len(),
            forall|k: int| from <= k < at ==> !occurs_at(hay@, needle@, k),
        decreases last - at,
    {
        if matches_at(hay, needle, at) {
            return Some(at);
        }
        if at == last {
            return None;
        }
        at += 1;
    }
}

/// The position of the first `c` in `v[from..]`, or the length of `v`.
pub fn position_from(v: &Vec<char>, c: char, from: usize) -> (r: usize)
    requires
        from <= v.len(),
    ensures
        r == from + position_of(v@.skip(from as int), c),
        from <= r <= v.len(),
{
    let mut at: usize = from;
    proof {
        position_of_bounds(v@.skip(from as int), c);
    }
    while at < v.len() && v[at] != c
        invariant
            from <= at <= v.len(),
            from + position_of(v@.skip(from as int), c) == at + position_of(v@.skip(at as int), c),
        decreases v.len() - at,
    {
        assert(v@.skip(at as int).drop_first() == v@.skip(at as int + 1));
        at += 1;
    }
    at
}

/// Whether `c` is among `v[from..to]`.
pub fn chars_contain(v: &Vec<char>, c: char, from: usize, to: usize) -> (r: bool)
    requires
        from <= to <= v.len(),
    ensures
        r == v@.subrange(from as int, to as int).contains(c),
{
    let mut at: usize = from;
    while at < to
        invariant
            from <= at <= to <= v.len(),
            forall|k: int| from <= k < at ==> v@[k] != c,
        decreases to - at,
    {
        if v[at] == c {
            assert(v@.subrange(from as int, to as int)[at - from] == c);
            return true;
        }
        at += 1;
    }
    false
}

/// A copy of `v[from..to]`.
pub fn copy_chars(v: &Vec<char>, from: usize, to: usize) -> (r: Vec<char>)
    requires
        from <= to <= v.len(),
    ensures
        r@ == v@.subrange(from as int, to as int),
{
    let mut out: Vec<char> = Vec::new();
    let mut at: usize = from;
    while at < to
        invariant
            from <= at <= to <= v.len(),
            out@ == v@.subrange(from as int, at as int),
        decreases to - at,
    {
        out.push(v[at]);
        at += 1;
    }
    out
}

/// The position where `needle` is first found in `hay`.
pub fn find_first(hay: &Vec<char>, needle: &Vec<char>) -> (r: Option<usize>)
    ensures
        match r {
            Some(at) => find(hay@, needle@) == Some(at as int) && occurs_at(
                hay@,
                needle@,
                at as int,
            ),
            None => find(hay@, needle@) is None,
        },
        r is Some <==> contains(hay@, needle@),
{
    let found = find_from(hay, needle, 0);
    proof {
        match found {
            Some(at) => find_is_first(hay@, needle@, at as int),
            None => find_is_none(hay@, needle@),
        }
    }
    found
}

/// The lines of the text held in `v`.
pub fn split_lines(v: &Vec<char>) -> (r: Vec<Vec<char>>)
    ensures
        r@.len() == lines(v@).len(),
        forall|k: int| 0 <= k < r@.len() ==> (#[trigger] r@[k])@ == lines(v@)[k],
{
    let mut out: Vec<Vec<char>> = Vec::new();
    let ghost mut done: Seq<Seq<char>> = Seq::empty();
    let mut start: usize = 0;
    assert(v@.skip(0) == v@);
    while start < v.len()
        invariant
            start <= v.len(),
            out@.len() == done.len(),
            forall|k: int| 0 <= k < out@.len() ==> (#[trigger] out@[k])@ == done[k],
            lines(v@) == done + lines(v@.skip(start as int)),
        decreases v.len() - start,
    {
        let ghost rest = v@.skip(start as int);
        let end = position_from(v, '\n', start);
        let mut stop = end;
        if end < v.len() && stop > start && v[stop - 1] == '\r' {
            stop -= 1;
        }
        let line = copy_chars(v, start, stop);
        proof {
            assert(rest.take(end - start) == v@.subrange(start as int, end as int));
            if end < v.len() {
                assert(rest.skip(end - start + 1) == v@.skip(end as int + 1));
                assert(line@ == without_carriage_return(rest.take(end - start))) by {
                    let whole = v@.subrange(start as int, end as int);
                    if whole.len() > 0 && whole.last() == '\r' {
                        assert(whole.drop_last() == v@.subrange(start as int, stop as int));
                    }
                }
                assert(done + (seq![line@] + lines(v@.skip(end as int + 1))) == done.push(line@)
                    + lines(v@.skip(end as int + 1)));
            } else {
                assert(line@ == rest);
                assert(v@.skip(v.len() as int) == Seq::<char>::empty());
                assert(done + seq![line@] == done.push(line@) + Seq::<Seq<char>>::empty());
            }
            done = done.push(line@);
        }
        out.push(line);
        start = if end < v.len() {
            end + 1
        } else {
            end
        };
    }
    assert(v@.skip(v.len() as int) == Seq::<char>::empty());
    assert(done + Seq::<Seq<char>>::empty() == done);
    out
}

/// The decimal digits of `n`.
pub fn decimal_text(n: u64) -> (r: String)
    ensures
        r@ == decimal(n as nat),
{
    let mut digits: Vec<char> = Vec::new();
    let mut rest: u64 = n;
    assert(decimal(n as nat) + reversed(digits@) == decimal(n as nat));
    while rest >= 10
        invariant
            decimal(n as nat) == decimal(rest as nat) + reversed(digits@),
        decreases rest,
    {
        let low = rest % 10;
        proof {
            let before = reversed(digits@);
            let grown = digits@.push(digit(low as nat));
            assert(grown.drop_last() == digits@);
            assert(reversed(grown) == seq![digit(low as nat)] + before);
            assert(decimal((rest / 10) as nat).push(digit(low as nat)) + before == decimal(
                (rest / 10) as nat,
            ) + (seq![digit(low as nat)] + before));
        }
        digits.push(digit_char(low));
        rest = rest / 10;
    }
    proof {
        let before = reversed(digits@);
        let grown = digits@.push(digit(rest as nat));
        assert(grown.drop_last() == digits@);
        assert(reversed(grown) == seq![digit(rest as nat)] + before);
    }
    digits.push(digit_char(rest));
    let mut out = String::new();
    let mut at: usize = digits.len();
    assert(digits@.take(at as int) == digits@);
    assert(out@ + reversed(digits@) == reversed(digits@));
    while at > 0
        invariant
            at <= digits.len(),
            out@ + reversed(digits@.take(at as int)) == reversed(digits@),
        decreases at,
    {
        at -= 1;
        proof {
            let upto = digits@.take(at as int + 1);
            let first = digits@[at as int];
            assert(upto.drop_last() == digits@.take(at as int));
            assert(upto.last() == first);
            assert(reversed(upto) == seq![first] + reversed(digits@.take(at as int)));
            assert(out@.push(first) + reversed(digits@.take(at as int)) == out@ + (seq![first]
                + reversed(digits@.take(at as int))));
        }
        push_char(&mut out, digits[at]);
    }
    assert(digits@.take(0) == Seq::<char>::empty());
    assert(out@ + Seq::<char>::empty() == out@);
    out
}

/// `s` from its last element to its first.
pub open spec fn reversed(s: Seq<char>) -> Seq<char>
    decreases s.len(),
{
    if s.len() == 0 {
        Seq::empty()
    } else {
        seq![s.last()] + reversed(s.drop_last())
    }
}

/// The character of a digit below ten.
fn digit_char(n: u64) -> (r: char)
    requires
        n < 10,
    ensures
        r == digit(n as nat),
{
    let code: u8 = 48 + (n as u8);
    code as char
}

/// Whether `a` comes before `b` in the order of texts.
pub fn chars_lt(a: &Vec<char>, b: &Vec<char>) -> (r: bool)
    ensures
        r == text_lt(a@, b@),
{
    let mut at: usize = 0;
    assert(a@.skip(0) == a@);
    assert(b@.skip(0) == b@);
    while at < a.len() && at < b.len()
        invariant
            at <= a.len(),
            at <= b.len(),
            text_lt(a@, b@) == text_lt(a@.skip(at as int), b@.skip(at as int)),
        decreases a.len() - at,
    {
        if a[at] != b[at] {
            return a[at] < b[at];
        }
        assert(a@.skip(at as int).drop_first() == a@.skip(at as int + 1));
        assert(b@.skip(at as int).drop_first() == b@.skip(at as int + 1));
        at += 1;
    }
    a.len() < b.len()
}

/// Whether the text `a` comes before the text `b`.
pub fn text_before(a: &str, b: &str) -> (r: bool)
    ensures
        r == text_lt(a@, b@),
{
    let x = to_chars(a);
    let y = to_chars(b);
    chars_lt(&x, &y)
}

/// Whether the pair `(a, b)` comes before the pair `(c, d)`.
pub fn key_before(a: &str, b: Option<&str>, c: &str, d: Option<&str>) -> (r: bool)
    ensures
        r == key_lt(
            (
                a@,
                borrowed_view(b),
            ),
            (
                c@,
                borrowed_view(d),
            ),
        ),
{
    if text_before(a, c) {
        return true;
    }
    if !text_eq(a, c) {
        return false;
    }
    match (b, d) {
        (None, Some(_)) => true,
        (Some(x), Some(y)) => text_before(x, y),
        _ => false,
    }
}

} // verus!
