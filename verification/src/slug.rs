//! Derivation of stable slugs from free-form text.
//!
//! A slug holds lowercase ASCII letters, digits and single hyphens, and
//! neither starts nor ends with a hyphen, which makes it usable as a branch
//! name and as a file name on every platform.

use vstd::prelude::*;
use crate::text::{
    is_whitespace, to_chars, to_text, trim, trim_bounds, trim_end, trim_of_tight, trim_start,
};

verus! {

/// Whether `c` is an ASCII capital letter.
pub open spec fn is_ascii_upper(c: char) -> bool {
    'A' <= c <= 'Z'
}

/// Whether `c` is a lowercase ASCII letter or an ASCII digit.
pub open spec fn is_slug_alnum(c: char) -> bool {
    ('a' <= c <= 'z') || ('0' <= c <= '9')
}

/// Whether `c` contributes a character to a slug.
pub open spec fn is_slug_worthy(c: char) -> bool {
    is_ascii_upper(c) || is_slug_alnum(c)
}

/// The lowercase form of an ASCII capital letter.
pub open spec fn ascii_lower(c: char) -> char {
    ((c as u8 + 32) as u8) as char
}

/// The slug characters produced by scanning `s` from left to right: letters
/// and digits are kept in lowercase, and every run of other characters that
/// follows a kept character becomes one hyphen.
pub open spec fn slug_scan(s: Seq<char>) -> Seq<char>
    decreases s.len(),
{
    if s.len() == 0 {
        Seq::empty()
    } else {
        let before = slug_scan(s.drop_last());
        let c = s.last();
        if is_ascii_upper(c) {
            before.push(ascii_lower(c))
        } else if is_slug_alnum(c) {
            before.push(c)
        } else if before.len() > 0 && before.last() != '-' {
            before.push('-')
        } else {
            before
        }
    }
}

/// `s` without its trailing hyphens.
pub open spec fn strip_trailing_hyphens(s: Seq<char>) -> Seq<char>
    decreases s.len(),
{
    if s.len() > 0 && s.last() == '-' {
        strip_trailing_hyphens(s.drop_last())
    } else {
        s
    }
}

/// The slug derived from `s`, if `s` holds any slug-worthy character.
pub open spec fn derive_slug(s: Seq<char>) -> Option<Seq<char>> {
    let body = strip_trailing_hyphens(slug_scan(trim(s)));
    if body.len() == 0 {
        None
    } else {
        Some(body)
    }
}

/// Lowercase letters, digits and hyphens only, no hyphen in front and no two
/// hyphens in a row.
pub open spec fn is_slug_prefix(s: Seq<char>) -> bool {
    &&& forall|i: int| 0 <= i < s.len() ==> is_slug_alnum(#[trigger] s[i]) || s[i] == '-'
    &&& s.len() > 0 ==> s[0] != '-'
    &&& forall|i: int| 0 < i < s.len() && #[trigger] s[i] == '-' ==> s[i - 1] != '-'
}

/// One or more groups of lowercase letters and digits joined by single
/// hyphens.
pub open spec fn is_valid_slug(s: Seq<char>) -> bool {
    &&& s.len() > 0
    &&& is_slug_prefix(s)
    &&& s.last() != '-'
}

/// Whether some character of `s` is slug-worthy.
pub open spec fn has_slug_content(s: Seq<char>) -> bool {
    exists|i: int| 0 <= i < s.len() && is_slug_worthy(#[trigger] s[i])
}

proof fn slug_scan_shape(s: Seq<char>)
    ensures
        is_slug_prefix(slug_scan(s)),
        slug_scan(s).len() > 0 <==> has_slug_content(s),
    decreases s.len(),
{
    if s.len() > 0 {
        let head = s.drop_last();
        slug_scan_shape(head);
        let c = s.last();
        if has_slug_content(head) {
            let i = choose|i: int| 0 <= i < head.len() && is_slug_worthy(#[trigger] head[i]);
            assert(is_slug_worthy(s[i]));
        }
        if is_slug_worthy(c) {
            assert(is_slug_worthy(s[s.len() - 1]));
        }
        if has_slug_content(s) && !is_slug_worthy(c) {
            let i = choose|i: int| 0 <= i < s.len() && is_slug_worthy(#[trigger] s[i]);
            assert(is_slug_worthy(head[i]));
        }
    }
}

proof fn strip_of_slug_prefix(s: Seq<char>)
    requires
        is_slug_prefix(s),
    ensures
        strip_trailing_hyphens(s).len() == 0 <==> s.len() == 0,
        s.len() > 0 ==> is_valid_slug(strip_trailing_hyphens(s)),
        strip_trailing_hyphens(s) == if s.len() > 0 && s.last() == '-' {
            s.drop_last()
        } else {
            s
        },
{
    if s.len() > 0 && s.last() == '-' {
        let head = s.drop_last();
        assert(s[s.len() - 1] == '-');
        assert(s.len() >= 2);
        assert(s[s.len() - 2] != '-');
        assert(head.last() == s[s.len() - 2]);
        assert(strip_trailing_hyphens(head) == head);
        assert forall|i: int| 0 <= i < head.len() implies is_slug_alnum(#[trigger] head[i])
            || head[i] == '-' by {
            assert(head[i] == s[i]);
        }
        assert forall|i: int| 0 < i < head.len() && #[trigger] head[i] == '-' implies head[i - 1]
            != '-' by {
            assert(head[i] == s[i]);
            assert(head[i - 1] == s[i - 1]);
        }
    }
}

proof fn trim_keeps_slug_content(s: Seq<char>)
    ensures
        has_slug_content(trim(s)) <==> has_slug_content(s),
{
    trim_start_keeps_slug_content(s);
    trim_end_keeps_slug_content(trim_start(s));
}

proof fn trim_start_keeps_slug_content(s: Seq<char>)
    ensures
        has_slug_content(trim_start(s)) <==> has_slug_content(s),
    decreases s.len(),
{
    if s.len() > 0 && is_whitespace(s[0]) {
        let tail = s.drop_first();
        trim_start_keeps_slug_content(tail);
        if has_slug_content(tail) {
            let i = choose|i: int| 0 <= i < tail.len() && is_slug_worthy(#[trigger] tail[i]);
            assert(is_slug_worthy(s[i + 1]));
        }
        if has_slug_content(s) {
            let i = choose|i: int| 0 <= i < s.len() && is_slug_worthy(#[trigger] s[i]);
            assert(i > 0);
            assert(is_slug_worthy(tail[i - 1]));
        }
    }
}

proof fn trim_end_keeps_slug_content(s: Seq<char>)
    ensures
        has_slug_content(trim_end(s)) <==> has_slug_content(s),
    decreases s.len(),
{
    if s.len() > 0 && is_whitespace(s.last()) {
        let head = s.drop_last();
        trim_end_keeps_slug_content(head);
        if has_slug_content(head) {
            let i = choose|i: int| 0 <= i < head.len() && is_slug_worthy(#[trigger] head[i]);
            assert(is_slug_worthy(s[i]));
        }
        if has_slug_content(s) {
            let i = choose|i: int| 0 <= i < s.len() && is_slug_worthy(#[trigger] s[i]);
            assert(i < s.len() - 1);
            assert(is_slug_worthy(head[i]));
        }
    }
}

/// Every derived slug is one or more groups of lowercase letters and digits
/// joined by single hyphens, and a slug is derived exactly from the inputs
/// that hold a letter or a digit: an input made of separators and non-ASCII
/// characters alone has none.
pub proof fn derived_slug_is_valid(s: Seq<char>)
    ensures
        derive_slug(s) matches Some(slug) ==> is_valid_slug(slug),
        derive_slug(s) is Some <==> has_slug_content(s),
{
    let scanned = slug_scan(trim(s));
    slug_scan_shape(trim(s));
    strip_of_slug_prefix(scanned);
    trim_keeps_slug_content(s);
}

proof fn slug_scan_of_slug_prefix(s: Seq<char>)
    requires
        is_slug_prefix(s),
    ensures
        slug_scan(s) == s,
    decreases s.len(),
{
    if s.len() > 0 {
        let head = s.drop_last();
        assert forall|i: int| 0 <= i < head.len() implies is_slug_alnum(#[trigger] head[i])
            || head[i] == '-' by {
            assert(head[i] == s[i]);
        }
        assert forall|i: int| 0 < i < head.len() && #[trigger] head[i] == '-' implies head[i - 1]
            != '-' by {
            assert(head[i] == s[i]);
            assert(head[i - 1] == s[i - 1]);
        }
        if head.len() > 0 {
            assert(head[0] == s[0]);
        }
        slug_scan_of_slug_prefix(head);
        let c = s.last();
        assert(c == s[s.len() - 1]);
        if c == '-' {
            assert(s.len() >= 2);
            assert(s[s.len() - 2] != '-');
            assert(head.last() == s[s.len() - 2]);
        }
        assert(head.push(c) =~= s);
    }
}

/// Deriving a slug from a valid slug gives that slug back.
pub proof fn derive_slug_idempotent(slug: Seq<char>)
    requires
        is_valid_slug(slug),
    ensures
        derive_slug(slug) == Some(slug),
{
    assert(slug.last() == slug[slug.len() - 1]);
    trim_of_tight(slug);
    slug_scan_of_slug_prefix(slug);
}

/// Deriving a slug twice gives what deriving it once gives.
pub proof fn derive_slug_twice(s: Seq<char>)
    ensures
        derive_slug(s) matches Some(slug) ==> derive_slug(slug) == Some(slug),
{
    derived_slug_is_valid(s);
    if let Some(slug) = derive_slug(s) {
        derive_slug_idempotent(slug);
    }
}

/// The character that a letter or a digit contributes to a slug.
pub open spec fn slug_char(c: char) -> char {
    if is_ascii_upper(c) {
        ascii_lower(c)
    } else {
        c
    }
}

/// The words of a text: its maximal runs of letters and digits, in
/// lowercase.
pub open spec fn slug_words(s: Seq<char>) -> Seq<Seq<char>>
    decreases s.len(),
{
    if s.len() == 0 {
        Seq::empty()
    } else {
        let before = slug_words(s.drop_last());
        let c = s.last();
        if !is_slug_worthy(c) {
            before
        } else if s.len() >= 2 && is_slug_worthy(s[s.len() - 2]) {
            before.drop_last().push(before.last().push(slug_char(c)))
        } else {
            before.push(seq![slug_char(c)])
        }
    }
}

/// The words joined by single hyphens.
pub open spec fn hyphenated(words: Seq<Seq<char>>) -> Seq<char>
    decreases words.len(),
{
    if words.len() == 0 {
        Seq::empty()
    } else if words.len() == 1 {
        words[0]
    } else {
        hyphenated(words.drop_last()) + seq!['-'] + words.last()
    }
}

/// Every word holds a character, and letters and digits only.
pub open spec fn are_words(words: Seq<Seq<char>>) -> bool {
    forall|i: int|
        0 <= i < words.len() ==> (#[trigger] words[i]).len() > 0 && forall|j: int|
            0 <= j < words[i].len() ==> is_slug_alnum(#[trigger] words[i][j])
}

proof fn slug_words_are_words(s: Seq<char>)
    ensures
        are_words(slug_words(s)),
        s.len() > 0 && is_slug_worthy(s.last()) ==> slug_words(s).len() > 0,
    decreases s.len(),
{
    if s.len() > 0 {
        let head = s.drop_last();
        let before = slug_words(head);
        let c = s.last();
        slug_words_are_words(head);
        let all = slug_words(s);
        if !is_slug_worthy(c) {
        } else if s.len() >= 2 && is_slug_worthy(s[s.len() - 2]) {
            assert(head.last() == s[s.len() - 2]);
            let grown = before.last().push(slug_char(c));
            assert forall|i: int| 0 <= i < all.len() implies (#[trigger] all[i]).len() > 0
                && forall|j: int| 0 <= j < all[i].len() ==> is_slug_alnum(#[trigger] all[i][j]) by {
                if i < all.len() - 1 {
                    assert(all[i] == before[i]);
                } else {
                    assert(all[i] == grown);
                    assert forall|j: int| 0 <= j < grown.len() implies is_slug_alnum(
                        #[trigger] grown[j],
                    ) by {
                        if j < grown.len() - 1 {
                            assert(grown[j] == before.last()[j]);
                        }
                    }
                }
            }
        } else {
            assert forall|i: int| 0 <= i < all.len() implies (#[trigger] all[i]).len() > 0
                && forall|j: int| 0 <= j < all[i].len() ==> is_slug_alnum(#[trigger] all[i][j]) by {
                if i < all.len() - 1 {
                    assert(all[i] == before[i]);
                }
            }
        }
    }
}

proof fn hyphenated_ends_with_a_word(words: Seq<Seq<char>>)
    requires
        are_words(words),
        words.len() > 0,
    ensures
        hyphenated(words).len() > 0,
        hyphenated(words).last() != '-',
{
    let word = words.last();
    assert(word == words[words.len() - 1]);
    assert(is_slug_alnum(word[word.len() - 1]));
    if words.len() > 1 {
        assert(hyphenated(words).last() == word[word.len() - 1]);
    } else {
        assert(words[0] == word);
    }
}

proof fn slug_scan_joins_words(s: Seq<char>)
    ensures
        slug_scan(s) == if slug_words(s).len() == 0 {
            Seq::<char>::empty()
        } else if is_slug_worthy(s.last()) {
            hyphenated(slug_words(s))
        } else {
            hyphenated(slug_words(s)).push('-')
        },
    decreases s.len(),
{
    if s.len() > 0 {
        let head = s.drop_last();
        let before = slug_words(head);
        let scanned = slug_scan(head);
        let c = s.last();
        let all = slug_words(s);
        slug_scan_joins_words(head);
        slug_words_are_words(head);
        slug_words_are_words(s);
        if before.len() > 0 {
            hyphenated_ends_with_a_word(before);
        }
        if head.len() > 0 {
            assert(head.last() == s[s.len() - 2]);
        }
        if is_slug_worthy(c) {
            let kept = slug_char(c);
            assert(slug_scan(s) == scanned.push(kept));
            if s.len() >= 2 && is_slug_worthy(s[s.len() - 2]) {
                let grown = before.last().push(kept);
                assert(all == before.drop_last().push(grown));
                if before.len() == 1 {
                    assert(all.len() == 1);
                    assert(all[0] == grown);
                    assert(before[0] == before.last());
                } else {
                    assert(all.drop_last() == before.drop_last());
                    assert(all.last() == grown);
                    assert(hyphenated(before.drop_last()) + seq!['-'] + grown == (hyphenated(
                        before.drop_last(),
                    ) + seq!['-'] + before.last()).push(kept));
                }
            } else {
                assert(all == before.push(seq![kept]));
                if before.len() == 0 {
                    assert(all.len() == 1);
                    assert(all[0] == seq![kept]);
                    assert(seq![kept] == Seq::<char>::empty().push(kept));
                } else {
                    assert(all.drop_last() == before);
                    assert(all.last() == seq![kept]);
                    assert(hyphenated(before) + seq!['-'] + seq![kept] == hyphenated(before).push(
                        '-',
                    ).push(kept));
                }
            }
        } else {
            assert(all == before);
            if before.len() > 0 && is_slug_worthy(head.last()) {
                assert(scanned == hyphenated(before));
            }
        }
    }
}

proof fn leading_separator_has_no_word(s: Seq<char>)
    requires
        s.len() > 0,
        !is_slug_worthy(s[0]),
    ensures
        slug_words(s) == slug_words(s.drop_first()),
    decreases s.len(),
{
    let tail = s.drop_first();
    if tail.len() == 0 {
        assert(s.last() == s[0]);
        assert(slug_words(s) == slug_words(s.drop_last()));
        assert(s.drop_last() == tail);
    } else {
        let head = s.drop_last();
        assert(head[0] == s[0]);
        leading_separator_has_no_word(head);
        assert(head.drop_first() == tail.drop_last());
        assert(slug_words(head) == slug_words(tail.drop_last()));
        assert(s.last() == tail.last());
        if tail.len() >= 2 {
            assert(s[s.len() - 2] == tail[tail.len() - 2]);
        } else {
            assert(s[s.len() - 2] == s[0]);
        }
    }
}

proof fn trim_keeps_words(s: Seq<char>)
    ensures
        slug_words(trim(s)) == slug_words(s),
{
    trim_start_keeps_words(s);
    trim_end_keeps_words(trim_start(s));
}

proof fn trim_start_keeps_words(s: Seq<char>)
    ensures
        slug_words(trim_start(s)) == slug_words(s),
    decreases s.len(),
{
    if s.len() > 0 && is_whitespace(s[0]) {
        leading_separator_has_no_word(s);
        trim_start_keeps_words(s.drop_first());
    }
}

proof fn trim_end_keeps_words(s: Seq<char>)
    ensures
        slug_words(trim_end(s)) == slug_words(s),
    decreases s.len(),
{
    if s.len() > 0 && is_whitespace(s.last()) {
        trim_end_keeps_words(s.drop_last());
    }
}

/// The slug of a text is its words joined by single hyphens; a text without
/// words has no slug.
pub proof fn slug_is_words_joined(s: Seq<char>)
    ensures
        derive_slug(s) == if slug_words(s).len() == 0 {
            None
        } else {
            Some(hyphenated(slug_words(s)))
        },
{
    let trimmed = trim(s);
    let words = slug_words(trimmed);
    trim_keeps_words(s);
    slug_scan_joins_words(trimmed);
    slug_words_are_words(trimmed);
    if words.len() > 0 {
        hyphenated_ends_with_a_word(words);
        let joined = hyphenated(words);
        assert(strip_trailing_hyphens(joined) == joined);
        if !is_slug_worthy(trimmed.last()) {
            assert(joined.push('-').drop_last() == joined);
            assert(strip_trailing_hyphens(joined.push('-')) == strip_trailing_hyphens(joined));
        }
    }
}

/// Builder of slugs for branch names and file names.
#[derive(Debug, Clone, Copy)]
pub struct SlugStrategy<'input> {
    source: &'input str,
}

impl<'input> SlugStrategy<'input> {
    /// The text that the slug is derived from.
    pub closed spec fn source(self) -> Seq<char> {
        self.source@
    }

    /// Creates a slug builder for the given text.
    pub fn builder(source: &'input str) -> (r: Self)
        ensures
            r.source() == source@,
    {
        Self { source }
    }

    /// Derives the slug of the source text: its runs of letters and digits,
    /// in lowercase, joined by single hyphens. Returns `None` when the text
    /// holds no letter and no digit.
    pub fn build(self) -> (r: Option<String>)
        ensures
            match r {
                Some(slug) => derive_slug(self.source()) == Some(slug@) && is_valid_slug(slug@),
                None => derive_slug(self.source()) is None,
            },
            r is Some <==> has_slug_content(self.source()),
            match r {
                Some(slug) => slug@ == hyphenated(slug_words(self.source())),
                None => slug_words(self.source()).len() == 0,
            },
    {
        proof {
            derived_slug_is_valid(self.source@);
            slug_is_words_joined(self.source@);
        }
        let chars = to_chars(self.source);
        let (start, end) = trim_bounds(&chars);
        if start == end {
            return None;
        }
        let ghost trimmed = trim(self.source@);
        let mut slug: Vec<char> = Vec::new();
        let mut previous_hyphen = false;
        let mut i: usize = start;
        while i < end
            invariant
                start <= i <= end <= chars.len(),
                chars@.subrange(start as int, end as int) == trimmed,
                slug@ == slug_scan(trimmed.take(i - start)),
                previous_hyphen == (slug.len() > 0 && slug@.last() == '-'),
            decreases end - i,
        {
            let candidate = chars[i];
            proof {
                let upto = trimmed.take(i - start + 1);
                assert(upto.drop_last() == trimmed.take(i - start));
                assert(upto.last() == candidate);
            }
            if 'A' <= candidate && candidate <= 'Z' {
                slug.push(to_ascii_lower(candidate));
                previous_hyphen = false;
            } else if ('a' <= candidate && candidate <= 'z') || ('0' <= candidate && candidate
                <= '9') {
                slug.push(candidate);
                previous_hyphen = false;
            } else if !previous_hyphen && slug.len() > 0 {
                slug.push('-');
                previous_hyphen = true;
            }
            i += 1;
        }
        assert(trimmed.take(end - start) == trimmed);
        while slug.len() > 0 && slug[slug.len() - 1] == '-'
            invariant
                strip_trailing_hyphens(slug@) == strip_trailing_hyphens(slug_scan(trimmed)),
            decreases slug.len(),
        {
            slug.pop();
        }
        if slug.len() == 0 {
            None
        } else {
            Some(to_text(&slug, 0, slug.len()))
        }
    }
}

/// The lowercase form of an ASCII capital letter.
fn to_ascii_lower(c: char) -> (r: char)
    requires
        is_ascii_upper(c),
    ensures
        r == ascii_lower(c),
{
    let b: u8 = c as u8;
    (b + 32) as char
}

} // verus!
