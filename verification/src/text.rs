//! Text primitives shared by the parsers of this crate.
//!
//! Text is modelled as `Seq<char>`, the view of `str` and `String`. Every
//! executable function here states its result as a spec function of the
//! views of its arguments.

use vstd::prelude::*;

verus! {

/// Whether `c` has the Unicode property `White_Space`.
pub open spec fn is_whitespace(c: char) -> bool {
    ||| '\u{9}' <= c <= '\u{d}'
    ||| c == ' '
    ||| c == '\u{85}'
    ||| c == '\u{a0}'
    ||| c == '\u{1680}'
    ||| '\u{2000}' <= c <= '\u{200a}'
    ||| c == '\u{2028}'
    ||| c == '\u{2029}'
    ||| c == '\u{202f}'
    ||| c == '\u{205f}'
    ||| c == '\u{3000}'
}

/// The position of the first `c` in `s`, or `s.len()` where `s` holds none.
pub open spec fn first_index<A>(s: Seq<A>, c: A) -> nat
    decreases s.len(),
{
    if s.len() == 0 || s[0] == c {
        0
    } else {
        1 + first_index(s.skip(1), c)
    }
}

/// The parts of `s` between occurrences of `sep`, in order. A text without
/// `sep` is its own single part; `n` occurrences give `n + 1` parts, some of
/// which may be empty.
pub open spec fn pieces(s: Seq<char>, sep: char) -> Seq<Seq<char>>
    decreases s.len(),
{
    let i = first_index(s, sep) as int;
    if i >= s.len() {
        seq![s]
    } else {
        seq![s.take(i)] + pieces(s.skip(i + 1), sep)
    }
}

/// `s` without its leading whitespace.
pub open spec fn trimmed_start(s: Seq<char>) -> Seq<char>
    decreases s.len(),
{
    if s.len() > 0 && is_whitespace(s[0]) {
        trimmed_start(s.skip(1))
    } else {
        s
    }
}

/// `s` without its trailing whitespace.
pub open spec fn trimmed_end(s: Seq<char>) -> Seq<char>
    decreases s.len(),
{
    if s.len() > 0 && is_whitespace(s.last()) {
        trimmed_end(s.drop_last())
    } else {
        s
    }
}

/// `s` without the whitespace that surrounds it.
pub open spec fn trimmed(s: Seq<char>) -> Seq<char> {
    trimmed_end(trimmed_start(s))
}

/// The text before the first line feed of `content`: all of it where it
/// holds no line feed.
pub open spec fn first_line(content: Seq<char>) -> Seq<char> {
    content.take(first_index(content, '\n') as int)
}

/// The first line of `content` together with the line feed that ends it,
/// where there is one.
pub open spec fn first_line_with_terminator(content: Seq<char>) -> Seq<char> {
    let i = first_index(content, '\n') as int;
    if i < content.len() {
        content.take(i + 1)
    } else {
        content
    }
}

/// The texts of `parts` one after the other, with `sep` between neighbours.
pub open spec fn joined(parts: Seq<Seq<char>>, sep: char) -> Seq<char>
    decreases parts.len(),
{
    if parts.len() == 0 {
        Seq::empty()
    } else if parts.len() == 1 {
        parts[0]
    } else {
        parts[0] + seq![sep] + joined(parts.skip(1), sep)
    }
}

/// Whether `s` holds nothing but whitespace.
pub open spec fn is_blank(s: Seq<char>) -> bool {
    forall|i: int| 0 <= i < s.len() ==> is_whitespace(s[i])
}

/// Whether `s` holds no whitespace.
pub open spec fn is_solid(s: Seq<char>) -> bool {
    forall|i: int| 0 <= i < s.len() ==> !is_whitespace(s[i])
}

/// The position of the first whitespace in `s`, or `s.len()` where `s`
/// holds none.
pub open spec fn first_whitespace(s: Seq<char>) -> nat {
    first_index(s.map_values(|c: char| is_whitespace(c)), true)
}

/// The words of `s`, in order: its longest stretches without whitespace.
pub open spec fn words(s: Seq<char>) -> Seq<Seq<char>>
    decreases s.len(),
    via words_decreases
{
    if s.len() == 0 {
        Seq::empty()
    } else if is_whitespace(s[0]) {
        words(s.skip(1))
    } else {
        seq![s.take(first_whitespace(s) as int)] + words(s.skip(first_whitespace(s) as int))
    }
}

#[via_fn]
proof fn words_decreases(s: Seq<char>) {
    lemma_first_whitespace_found(s);
}

/// Whether `c` occurs nowhere in `s`.
pub open spec fn free_of(s: Seq<char>, c: char) -> bool {
    forall|i: int| 0 <= i < s.len() ==> s[i] != c
}

/// `first_index` is the one position that has no `c` before it and either
/// holds `c` or is the end of `s`.
pub proof fn lemma_first_index_is<A>(s: Seq<A>, c: A, i: int)
    requires
        0 <= i <= s.len(),
        forall|j: int| 0 <= j < i ==> s[j] != c,
        i < s.len() ==> s[i] == c,
    ensures
        first_index(s, c) == i,
    decreases s.len(),
{
    if s.len() == 0 || s[0] == c {
    } else {
        let rest = s.skip(1);
        assert(forall|j: int| 0 <= j < i - 1 ==> rest[j] == s[j + 1]);
        lemma_first_index_is(rest, c, i - 1);
    }
}

/// What `first_index` returns: a position within `s` or its end, with no
/// `c` before it, and `c` at it unless it is the end.
pub proof fn lemma_first_index_found<A>(s: Seq<A>, c: A)
    ensures
        first_index(s, c) <= s.len(),
        forall|j: int| 0 <= j < first_index(s, c) ==> s[j] != c,
        first_index(s, c) < s.len() ==> s[first_index(s, c) as int] == c,
    decreases s.len(),
{
    if s.len() == 0 || s[0] == c {
    } else {
        let rest = s.skip(1);
        lemma_first_index_found(rest, c);
        assert forall|j: int| 0 <= j < first_index(s, c) implies s[j] != c by {
            if j > 0 {
                assert(rest[j - 1] == s[j]);
            }
        }
    }
}

/// What `first_whitespace` returns: a position within `s` or its end, with
/// no whitespace before it, and whitespace at it unless it is the end.
pub proof fn lemma_first_whitespace_found(s: Seq<char>)
    ensures
        first_whitespace(s) <= s.len(),
        is_solid(s.take(first_whitespace(s) as int)),
        first_whitespace(s) < s.len() ==> is_whitespace(s[first_whitespace(s) as int]),
        s.len() > 0 && !is_whitespace(s[0]) ==> first_whitespace(s) > 0,
{
    let flags = s.map_values(|c: char| is_whitespace(c));
    let end = first_whitespace(s) as int;
    lemma_first_index_found(flags, true);
    assert forall|j: int| 0 <= j < end implies !is_whitespace(s.take(end)[j]) by {
        assert(!flags[j]);
    }
    if s.len() > 0 && end == 0 {
        assert(flags[0]);
    }
}

/// `first_whitespace` is the one position that has no whitespace before it
/// and either holds whitespace or is the end of `s`.
pub proof fn lemma_first_whitespace_is(s: Seq<char>, i: int)
    requires
        0 <= i <= s.len(),
        forall|j: int| 0 <= j < i ==> !is_whitespace(s[j]),
        i < s.len() ==> is_whitespace(s[i]),
    ensures
        first_whitespace(s) == i,
{
    lemma_first_index_is(s.map_values(|c: char| is_whitespace(c)), true, i);
}

/// Words are what the name says: none is empty and none holds whitespace.
pub proof fn lemma_words_are_solid(s: Seq<char>)
    ensures
        forall|k: int|
            0 <= k < words(s).len() ==> (#[trigger] words(s)[k]).len() > 0 && is_solid(
                words(s)[k],
            ),
    decreases s.len(),
{
    if s.len() == 0 {
        assert(words(s).len() == 0);
    } else if is_whitespace(s[0]) {
        lemma_words_are_solid(s.skip(1));
        assert(words(s) == words(s.skip(1)));
    } else {
        lemma_first_whitespace_found(s);
        let end = first_whitespace(s) as int;
        let rest = s.skip(end);
        lemma_words_are_solid(rest);
        assert(words(s) == seq![s.take(end)] + words(rest));
        assert forall|k: int| 0 <= k < words(s).len() implies (#[trigger] words(s)[k]).len() > 0
            && is_solid(words(s)[k]) by {
            if k > 0 {
                assert(words(s)[k] == words(rest)[k - 1]);
            }
        }
    }
}

/// A text of nothing but whitespace has no words.
pub proof fn lemma_words_of_blank(s: Seq<char>)
    requires
        is_blank(s),
    ensures
        words(s) == Seq::<Seq<char>>::empty(),
    decreases s.len(),
{
    if s.len() > 0 {
        lemma_words_of_blank(s.skip(1));
    }
}

/// A text that is not blank has a word.
pub proof fn lemma_words_of_text(s: Seq<char>)
    requires
        !is_blank(s),
    ensures
        words(s).len() > 0,
    decreases s.len(),
{
    if s.len() > 0 && is_whitespace(s[0]) {
        let rest = s.skip(1);
        let i = choose|i: int| 0 <= i < s.len() && !is_whitespace(s[i]);
        assert(!is_whitespace(rest[i - 1]));
        lemma_words_of_text(rest);
        assert(words(s) == words(rest));
    } else if s.len() > 0 {
        let end = first_whitespace(s) as int;
        assert(words(s) == seq![s.take(end)] + words(s.skip(end)));
    }
}

/// A word, followed by whitespace and more text, is the first word, and the
/// rest gives the others.
pub proof fn lemma_words_after_first(word: Seq<char>, gap: Seq<char>, rest: Seq<char>)
    requires
        word.len() > 0,
        is_solid(word),
        is_blank(gap),
        gap.len() > 0 || rest.len() == 0,
    ensures
        words(word + gap + rest) == seq![word] + words(rest),
{
    let s = word + gap + rest;
    let n = word.len() as int;
    lemma_first_whitespace_is(s, n);
    assert(s.take(n) =~= word);
    assert(s.skip(n) =~= gap + rest);
    lemma_words_skip_blank(gap, rest);
}

/// Whitespace before a text adds no word.
pub proof fn lemma_words_skip_blank(gap: Seq<char>, rest: Seq<char>)
    requires
        is_blank(gap),
    ensures
        words(gap + rest) == words(rest),
    decreases gap.len(),
{
    if gap.len() == 0 {
        assert(gap + rest =~= rest);
    } else {
        assert((gap + rest).skip(1) =~= gap.skip(1) + rest);
        lemma_words_skip_blank(gap.skip(1), rest);
    }
}

/// Splitting always gives at least one part, and the first part is the text
/// before the first separator.
pub proof fn lemma_pieces_first(s: Seq<char>, sep: char)
    ensures
        pieces(s, sep).len() >= 1,
        pieces(s, sep)[0] == s.take(first_index(s, sep) as int),
{
    lemma_first_index_found(s, sep);
}

/// A text without any separator is its own single part.
pub proof fn lemma_pieces_without_separator(s: Seq<char>, sep: char)
    requires
        free_of(s, sep),
    ensures
        pieces(s, sep) == seq![s],
{
    lemma_first_index_is(s, sep, s.len() as int);
}

/// A text without separators, followed by one separator and more text, is
/// the first part, and the rest is split on its own.
pub proof fn lemma_pieces_after_first(a: Seq<char>, rest: Seq<char>, sep: char)
    requires
        free_of(a, sep),
    ensures
        pieces(a + seq![sep] + rest, sep) == seq![a] + pieces(rest, sep),
{
    let s = a + seq![sep] + rest;
    lemma_first_index_is(s, sep, a.len() as int);
    assert(s.take(a.len() as int) =~= a);
    assert(s.skip(a.len() as int + 1) =~= rest);
}

/// No part of a split text holds the separator, and a character that the
/// text is free of occurs in none of its parts.
pub proof fn lemma_pieces_free_of(s: Seq<char>, sep: char, c: char)
    requires
        c == sep || free_of(s, c),
    ensures
        forall|k: int| 0 <= k < pieces(s, sep).len() ==> free_of(#[trigger] pieces(s, sep)[k], c),
    decreases s.len(),
{
    lemma_first_index_found(s, sep);
    let i = first_index(s, sep) as int;
    if i < s.len() {
        let rest = s.skip(i + 1);
        lemma_pieces_free_of(rest, sep, c);
        assert forall|k: int| 0 <= k < pieces(s, sep).len() implies free_of(
            #[trigger] pieces(s, sep)[k],
            c,
        ) by {
            if k > 0 {
                assert(pieces(s, sep)[k] == pieces(rest, sep)[k - 1]);
            }
        }
    }
}

/// Splitting loses nothing: the parts, joined by the separator, are the
/// text.
pub proof fn lemma_pieces_join_back(s: Seq<char>, sep: char)
    ensures
        joined(pieces(s, sep), sep) == s,
    decreases s.len(),
{
    lemma_first_index_found(s, sep);
    let i = first_index(s, sep) as int;
    if i < s.len() {
        let rest = s.skip(i + 1);
        lemma_pieces_join_back(rest, sep);
        lemma_pieces_first(rest, sep);
        assert(pieces(s, sep).skip(1) =~= pieces(rest, sep));
        assert(s.take(i) + seq![sep] + rest =~= s);
    }
}

/// What trimming leaves: a stretch of the text that neither begins nor ends
/// with whitespace, with nothing but whitespace before and after it.
pub proof fn lemma_trimmed_is_the_core(s: Seq<char>)
    ensures
        trimmed(s).len() > 0 ==> !is_whitespace(trimmed(s)[0]) && !is_whitespace(
            trimmed(s).last(),
        ),
        ({
            let from = s.len() - trimmed_start(s).len();
            let to = from + trimmed(s).len();
            &&& 0 <= from <= to <= s.len()
            &&& trimmed(s) == s.subrange(from, to)
            &&& is_blank(s.take(from))
            &&& is_blank(s.skip(to))
        }),
{
    let rest = trimmed_start(s);
    lemma_trimmed_start_is_a_tail(s);
    lemma_trimmed_end_is_a_head(rest);
    let from = s.len() - rest.len();
    let to = from + trimmed(s).len();
    assert(trimmed(s) =~= s.subrange(from, to));
    assert(s.skip(to) =~= rest.skip(trimmed(s).len() as int));
    if trimmed(s).len() > 0 {
        assert(trimmed(s)[0] == rest[0]);
    }
}

/// Without its leading whitespace a text is one of its tails, which does
/// not begin with whitespace; what was dropped is blank.
proof fn lemma_trimmed_start_is_a_tail(s: Seq<char>)
    ensures
        trimmed_start(s).len() <= s.len(),
        trimmed_start(s) == s.skip(s.len() - trimmed_start(s).len()),
        is_blank(s.take(s.len() - trimmed_start(s).len())),
        trimmed_start(s).len() > 0 ==> !is_whitespace(trimmed_start(s)[0]),
    decreases s.len(),
{
    if s.len() > 0 && is_whitespace(s[0]) {
        let tail = s.skip(1);
        lemma_trimmed_start_is_a_tail(tail);
        let dropped = tail.len() - trimmed_start(tail).len();
        assert(tail.skip(dropped) =~= s.skip(dropped + 1));
        assert(forall|i: int| 0 < i <= dropped ==> s[i] == tail.take(dropped)[i - 1]);
    } else {
        assert(s.skip(0) =~= s);
    }
}

/// Without its trailing whitespace a text is one of its heads, which does
/// not end with whitespace; what was dropped is blank.
proof fn lemma_trimmed_end_is_a_head(s: Seq<char>)
    ensures
        trimmed_end(s).len() <= s.len(),
        trimmed_end(s) == s.take(trimmed_end(s).len() as int),
        is_blank(s.skip(trimmed_end(s).len() as int)),
        trimmed_end(s).len() > 0 ==> !is_whitespace(trimmed_end(s).last()),
    decreases s.len(),
{
    if s.len() > 0 && is_whitespace(s.last()) {
        let head = s.drop_last();
        lemma_trimmed_end_is_a_head(head);
        let kept = trimmed_end(head).len() as int;
        assert(head.take(kept) =~= s.take(kept));
        assert(forall|i: int| 0 <= i < head.len() - kept ==> s.skip(kept)[i] == head.skip(kept)[i]);
    } else {
        assert(s.take(s.len() as int) =~= s);
    }
}

/// What a text is free of, it is still free of without its leading
/// whitespace.
proof fn lemma_trimmed_start_free_of(s: Seq<char>, c: char)
    requires
        free_of(s, c),
    ensures
        free_of(trimmed_start(s), c),
    decreases s.len(),
{
    if s.len() > 0 && is_whitespace(s[0]) {
        lemma_trimmed_start_free_of(s.skip(1), c);
    }
}

/// What a text is free of, it is still free of without its trailing
/// whitespace.
proof fn lemma_trimmed_end_free_of(s: Seq<char>, c: char)
    requires
        free_of(s, c),
    ensures
        free_of(trimmed_end(s), c),
    decreases s.len(),
{
    if s.len() > 0 && is_whitespace(s.last()) {
        lemma_trimmed_end_free_of(s.drop_last(), c);
    }
}

/// Trimming brings no character in: what a text is free of, its trimmed
/// form is free of too.
pub proof fn lemma_trimmed_free_of(s: Seq<char>, c: char)
    requires
        free_of(s, c),
    ensures
        free_of(trimmed(s), c),
{
    lemma_trimmed_start_free_of(s, c);
    lemma_trimmed_end_free_of(trimmed_start(s), c);
}

/// Reading back what was written. A text without a line feed, written
/// alone or before a line feed and anything more, is the first line of
/// what was written.
pub proof fn lemma_first_line_round_trip(name: Seq<char>, rest: Seq<char>)
    requires
        free_of(name, '\n'),
    ensures
        first_line(name) == name,
        first_line(name + seq!['\n'] + rest) == name,
{
    lemma_first_index_is(name, '\n', name.len() as int);
    let written = name + seq!['\n'] + rest;
    lemma_first_index_is(written, '\n', name.len() as int);
}

/// The characters of `s`, in order.
pub fn to_chars(s: &str) -> (chars: Vec<char>)
    ensures
        chars@ == s@,
{
    broadcast use vstd::string::axiom_spec_iter;

    let mut chars: Vec<char> = Vec::new();
    for c in it: s.chars()
        invariant
            it.seq() == s@,
            chars@ == s@.take(it.index()),
    {
        chars.push(c);
    }
    chars
}

/// The characters of `s` from position `from` up to, not including, `to`.
pub fn substring(s: &str, from: usize, to: usize) -> (part: String)
    requires
        from <= to <= s@.len(),
    ensures
        part@ == s@.subrange(from as int, to as int),
{
    String::from_str(s.substring_char(from, to))
}

/// Tests a character for the Unicode property `White_Space`.
pub fn is_whitespace_char(c: char) -> (b: bool)
    ensures
        b == is_whitespace(c),
{
    (c >= '\u{9}' && c <= '\u{d}') || c == ' ' || c == '\u{85}' || c == '\u{a0}' || c == '\u{1680}'
        || (c >= '\u{2000}' && c <= '\u{200a}') || c == '\u{2028}' || c == '\u{2029}' || c
        == '\u{202f}' || c == '\u{205f}' || c == '\u{3000}'
}

/// Whether two texts hold the same characters.
pub fn equal(a: &str, b: &str) -> (same: bool)
    ensures
        same == (a@ == b@),
{
    String::from_str(a) == String::from_str(b)
}

/// Whether `s` begins with `prefix`.
pub fn starts_with(s: &str, prefix: &str) -> (b: bool)
    ensures
        b == prefix@.is_prefix_of(s@),
{
    let text = to_chars(s);
    let head = to_chars(prefix);
    if head.len() > text.len() {
        return false;
    }
    let mut i: usize = 0;
    while i < head.len()
        invariant
            i <= head.len() <= text.len(),
            text@ == s@,
            head@ == prefix@,
            forall|j: int| 0 <= j < i ==> text@[j] == head@[j],
        decreases head.len() - i,
    {
        if text[i] != head[i] {
            return false;
        }
        i += 1;
    }
    true
}

/// Splits `s` at every occurrence of `sep`.
pub fn split(s: &str, sep: char) -> (parts: Vec<String>)
    ensures
        parts.deep_view() == pieces(s@, sep),
{
    let chars = to_chars(s);
    let n = chars.len();
    let mut parts: Vec<String> = Vec::new();
    let mut start: usize = 0;
    let mut i: usize = 0;
    assert(s@.skip(0) =~= s@);
    while i < n
        invariant
            start <= i <= n,
            n == s@.len(),
            chars@ == s@,
            forall|j: int| start <= j < i ==> s@[j] != sep,
            parts.deep_view() + pieces(s@.skip(start as int), sep) == pieces(s@, sep),
        decreases n - i,
    {
        if chars[i] == sep {
            let part = substring(s, start, i);
            proof {
                let rest = s@.skip(start as int);
                lemma_first_index_is(rest, sep, i - start);
                assert(rest.take(i - start) =~= s@.subrange(start as int, i as int));
                assert(rest.skip(i - start + 1) =~= s@.skip(i + 1));
            }
            let ghost before = parts.deep_view();
            parts.push(part);
            assert(parts.deep_view() + pieces(s@.skip(i + 1), sep) =~= before + (seq![part@]
                + pieces(s@.skip(i + 1), sep)));
            start = i + 1;
        }
        i += 1;
    }
    let part = substring(s, start, n);
    proof {
        lemma_first_index_is(s@.skip(start as int), sep, n - start);
    }
    parts.push(part);
    parts
}

/// Splits `s` into its words.
pub fn split_whitespace(s: &str) -> (parts: Vec<String>)
    ensures
        parts.deep_view() == words(s@),
{
    let chars = to_chars(s);
    let n = chars.len();
    let mut parts: Vec<String> = Vec::new();
    let mut i: usize = 0;
    assert(s@.skip(0) =~= s@);
    while i < n
        invariant
            i <= n,
            n == s@.len(),
            chars@ == s@,
            parts.deep_view() + words(s@.skip(i as int)) == words(s@),
        decreases n - i,
    {
        let ghost rest = s@.skip(i as int);
        if is_whitespace_char(chars[i]) {
            assert(rest.skip(1) =~= s@.skip(i + 1));
            i += 1;
        } else {
            let mut end: usize = i + 1;
            while end < n && !is_whitespace_char(chars[end])
                invariant
                    i < end <= n,
                    n == s@.len(),
                    chars@ == s@,
                    forall|j: int| i <= j < end ==> !is_whitespace(s@[j]),
                decreases n - end,
            {
                end += 1;
            }
            let part = substring(s, i, end);
            proof {
                lemma_first_whitespace_is(rest, end - i);
                assert(rest.take(end - i) =~= s@.subrange(i as int, end as int));
                assert(rest.skip(end - i) =~= s@.skip(end as int));
            }
            let ghost before = parts.deep_view();
            parts.push(part);
            assert(parts.deep_view() + words(s@.skip(end as int)) =~= before + (seq![part@]
                + words(s@.skip(end as int))));
            i = end;
        }
    }
    parts
}

/// Removes the whitespace around `s`.
pub fn trim(s: &str) -> (inner: String)
    ensures
        inner@ == trimmed(s@),
{
    let chars = to_chars(s);
    let n = chars.len();
    let mut start: usize = 0;
    assert(s@.skip(0) =~= s@);
    while start < n && is_whitespace_char(chars[start])
        invariant
            start <= n,
            n == s@.len(),
            chars@ == s@,
            trimmed_start(s@.skip(start as int)) == trimmed_start(s@),
        decreases n - start,
    {
        assert(s@.skip(start as int).skip(1) =~= s@.skip(start + 1));
        start += 1;
    }
    let ghost rest = s@.skip(start as int);
    let mut end: usize = n;
    assert(rest.take(n - start) =~= rest);
    while end > start && is_whitespace_char(chars[end - 1])
        invariant
            start <= end <= n,
            n == s@.len(),
            chars@ == s@,
            rest == s@.skip(start as int),
            trimmed_end(rest.take(end - start)) == trimmed_end(rest),
        decreases end,
    {
        assert(rest.take(end - start).drop_last() =~= rest.take(end - start - 1));
        end -= 1;
    }
    substring(s, start, end)
}

/// The first line of `content`, with the line feed that ends it if it has
/// one: what reading one line from the start of `content` yields.
pub fn get_first_line(content: &str) -> (line: String)
    ensures
        line@ == first_line_with_terminator(content@),
{
    let chars = to_chars(content);
    let n = chars.len();
    let mut i: usize = 0;
    while i < n && chars[i] != '\n'
        invariant
            i <= n,
            n == content@.len(),
            chars@ == content@,
            forall|j: int| 0 <= j < i ==> content@[j] != '\n',
        decreases n - i,
    {
        i += 1;
    }
    proof {
        lemma_first_index_is(content@, '\n', i as int);
    }
    if i < n {
        substring(content, 0, i + 1)
    } else {
        substring(content, 0, n)
    }
}

/// The first line of `content` without its line feed.
pub fn read_first_line(content: &str) -> (line: String)
    ensures
        line@ == first_line(content@),
{
    let with_terminator = get_first_line(content);
    let mut parts = split(with_terminator.as_str(), '\n');
    proof {
        let whole = first_line_with_terminator(content@);
        lemma_pieces_first(whole, '\n');
        lemma_first_index_found(content@, '\n');
        let i = first_index(content@, '\n') as int;
        assert(first_index(whole, '\n') == i) by {
            lemma_first_index_is(whole, '\n', i);
        }
    }
    parts.swap_remove(0)
}

} // verus!
