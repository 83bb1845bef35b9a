//! Cutting text into lines, words and parts.
use vstd::prelude::*;

verus! {

/// Whether a character is a blank within a line.
pub open spec fn is_blank(c: char) -> bool {
    c == ' ' || c == '\t' || c == '\r'
}

/// The first place at or after `from` at which `c` stands, or the length of
/// the text.
pub open spec fn find_from(text: Seq<char>, c: char, from: int) -> int
    decreases text.len() - from,
{
    if from < 0 || from >= text.len() {
        text.len() as int
    } else if text[from] == c {
        from
    } else {
        find_from(text, c, from + 1)
    }
}

/// The first place at or after `from` that holds no blank, or the length of
/// the text.
pub open spec fn skip_blanks(text: Seq<char>, from: int) -> int
    decreases text.len() - from,
{
    if from < 0 || from >= text.len() {
        text.len() as int
    } else if !is_blank(text[from]) {
        from
    } else {
        skip_blanks(text, from + 1)
    }
}

/// The first place at or after `from` that holds a blank, or the length of
/// the text.
pub open spec fn skip_word(text: Seq<char>, from: int) -> int
    decreases text.len() - from,
{
    if from < 0 || from >= text.len() {
        text.len() as int
    } else if is_blank(text[from]) {
        from
    } else {
        skip_word(text, from + 1)
    }
}

/// The place behind the last character before `upto` that is no blank, or
/// zero.
pub open spec fn end_before(text: Seq<char>, upto: int) -> int
    decreases upto,
{
    if upto <= 0 || upto > text.len() {
        0
    } else if !is_blank(text[upto - 1]) {
        upto
    } else {
        end_before(text, upto - 1)
    }
}

/// The text without the blanks at its ends.
pub open spec fn trimmed(text: Seq<char>) -> Seq<char> {
    let from = skip_blanks(text, 0);
    let to = end_before(text, text.len() as int);
    if from < to {
        text.subrange(from, to)
    } else {
        Seq::empty()
    }
}

/// The words of the text from the place `from` on: the parts between
/// blanks.
pub open spec fn words_from(text: Seq<char>, from: int) -> Seq<Seq<char>>
    decreases text.len() - from,
{
    let start = skip_blanks(text, from);
    let end = skip_word(text, start);
    if from < 0 || start >= text.len() || end <= from || end > text.len() {
        Seq::empty()
    } else {
        seq![text.subrange(start, end)] + words_from(text, end)
    }
}

/// The words of the text.
pub open spec fn words(text: Seq<char>) -> Seq<Seq<char>> {
    words_from(text, 0)
}

/// The lines of the text from the place `from` on: the parts between line
/// feeds.
pub open spec fn lines_from(text: Seq<char>, from: int) -> Seq<Seq<char>>
    decreases text.len() - from,
{
    let end = find_from(text, '\n', from);
    if from < 0 || from > text.len() || end < from {
        Seq::empty()
    } else if end >= text.len() {
        seq![text.subrange(from, text.len() as int)]
    } else {
        seq![text.subrange(from, end)] + lines_from(text, end + 1)
    }
}

/// The lines of the text.
pub open spec fn lines(text: Seq<char>) -> Seq<Seq<char>> {
    lines_from(text, 0)
}

/// The text with every `from` turned into `to`.
pub open spec fn replaced(text: Seq<char>, from: char, to: char) -> Seq<char> {
    Seq::new(text.len(), |i: int| if text[i] == from {
        to
    } else {
        text[i]
    })
}

/// The first place at or after `from` at which `c` stands, or the length of
/// the text.
pub fn find(text: &Vec<char>, c: char, from: usize) -> (at: usize)
    ensures
        at == find_from(text@, c, from as int),
        from <= text.len() ==> from <= at <= text.len(),
        at < text.len() ==> text@[at as int] == c,
{
    if from >= text.len() {
        return text.len();
    }
    let mut at: usize = from;
    while at < text.len() && text[at] != c
        invariant
            from <= at <= text.len(),
            find_from(text@, c, from as int) == find_from(text@, c, at as int),
        decreases text.len() - at,
    {
        at += 1;
    }
    at
}

/// The first place at or after `from` that holds no blank, or the length of
/// the text.
pub fn pass_blanks(text: &Vec<char>, from: usize) -> (at: usize)
    ensures
        at == skip_blanks(text@, from as int),
        from <= text.len() ==> from <= at <= text.len(),
        at < text.len() ==> !is_blank(text@[at as int]),
{
    if from >= text.len() {
        return text.len();
    }
    let mut at: usize = from;
    while at < text.len() && (text[at] == ' ' || text[at] == '\t' || text[at] == '\r')
        invariant
            from <= at <= text.len(),
            skip_blanks(text@, from as int) == skip_blanks(text@, at as int),
        decreases text.len() - at,
    {
        at += 1;
    }
    at
}

/// The first place at or after `from` that holds a blank, or the length of
/// the text.
pub fn pass_word(text: &Vec<char>, from: usize) -> (at: usize)
    ensures
        at == skip_word(text@, from as int),
        from <= text.len() ==> from <= at <= text.len(),
        from < text.len() && !is_blank(text@[from as int]) ==> from < at,
{
    if from >= text.len() {
        return text.len();
    }
    let mut at: usize = from;
    while at < text.len() && !(text[at] == ' ' || text[at] == '\t' || text[at] == '\r')
        invariant
            from <= at <= text.len(),
            skip_word(text@, from as int) == skip_word(text@, at as int),
            !is_blank(text@[from as int]) && at == from ==> at < text.len(),
        decreases text.len() - at,
    {
        at += 1;
    }
    at
}

/// The part of the text from `from` up to, not including, `to`.
pub fn part(text: &Vec<char>, from: usize, to: usize) -> (cut: Vec<char>)
    requires
        from <= to <= text.len(),
    ensures
        cut@ == text@.subrange(from as int, to as int),
{
    let mut cut: Vec<char> = Vec::new();
    let mut i: usize = from;
    while i < to
        invariant
            from <= i <= to <= text.len(),
            cut@ == text@.subrange(from as int, i as int),
        decreases to - i,
    {
        cut.push(text[i]);
        assert(cut@ =~= text@.subrange(from as int, i + 1));
        i += 1;
    }
    cut
}

/// The text without the blanks at its ends.
pub fn trim(text: &Vec<char>) -> (cut: Vec<char>)
    ensures
        cut@ == trimmed(text@),
{
    let from = pass_blanks(text, 0);
    let mut to: usize = text.len();
    while to > 0 && (text[to - 1] == ' ' || text[to - 1] == '\t' || text[to - 1] == '\r')
        invariant
            to <= text.len(),
            end_before(text@, text.len() as int) == end_before(text@, to as int),
        decreases to,
    {
        to -= 1;
    }
    if from < to {
        part(text, from, to)
    } else {
        Vec::new()
    }
}

/// The words of the text.
pub fn split_words(text: &Vec<char>) -> (found: Vec<Vec<char>>)
    ensures
        found.deep_view() == words(text@),
{
    let mut found: Vec<Vec<char>> = Vec::new();
    let mut at: usize = 0;
    assert(found.deep_view() + words_from(text@, 0) =~= words(text@));
    loop
        invariant
            at <= text.len(),
            found.deep_view() + words_from(text@, at as int) == words(text@),
        ensures
            found.deep_view() == words(text@),
        decreases text.len() - at,
    {
        let start = pass_blanks(text, at);
        if start >= text.len() {
            assert(found.deep_view() =~= found.deep_view() + words_from(text@, at as int));
            break ;
        }
        let end = pass_word(text, start);
        let word = part(text, start, end);
        let ghost before = found.deep_view();
        let ghost rest = words_from(text@, end as int);
        assert(word.deep_view() =~= text@.subrange(start as int, end as int));
        found.push(word);
        assert(found.deep_view() =~= before.push(text@.subrange(start as int, end as int)));
        assert(found.deep_view() + rest =~= before + (seq![
            text@.subrange(start as int, end as int),
        ] + rest));
        at = end;
    }
    found
}

/// The lines of the text.
pub fn split_lines(text: &Vec<char>) -> (found: Vec<Vec<char>>)
    ensures
        found.deep_view() == lines(text@),
        found.len() >= 1,
{
    let mut found: Vec<Vec<char>> = Vec::new();
    let mut at: usize = 0;
    assert(found.deep_view() + lines_from(text@, 0) =~= lines(text@));
    loop
        invariant_except_break
            found.deep_view() + lines_from(text@, at as int) == lines(text@),
        invariant
            at <= text.len(),
        ensures
            found.deep_view() == lines(text@),
            found.len() >= 1,
        decreases text.len() - at,
    {
        let end = find(text, '\n', at);
        let line = part(text, at, end);
        let ghost before = found.deep_view();
        assert(line.deep_view() =~= text@.subrange(at as int, end as int));
        found.push(line);
        assert(found.deep_view() =~= before.push(text@.subrange(at as int, end as int)));
        if end >= text.len() {
            assert(found.deep_view() =~= before + lines_from(text@, at as int));
            break ;
        }
        assert(found.deep_view() + lines_from(text@, end + 1) =~= before + lines_from(
            text@,
            at as int,
        ));
        at = end + 1;
    }
    found
}

/// The text with every `from` turned into `to`.
pub fn replace(text: &Vec<char>, from: char, to: char) -> (out: Vec<char>)
    ensures
        out@ == replaced(text@, from, to),
{
    let mut out: Vec<char> = Vec::new();
    let mut i: usize = 0;
    while i < text.len()
        invariant
            i <= text.len(),
            out.len() == i,
            forall|j: int| 0 <= j < i ==> out@[j] == replaced(text@, from, to)[j],
        decreases text.len() - i,
    {
        if text[i] == from {
            out.push(to);
        } else {
            out.push(text[i]);
        }
        i += 1;
    }
    assert(out@ =~= replaced(text@, from, to));
    out
}

/// Whether the text is the given word.
pub fn is_word(text: &Vec<char>, word: &str) -> (same: bool)
    ensures
        same == (text@ == word@),
{
    let wanted = crate::text::chars_of(word);
    if text.len() != wanted.len() {
        return false;
    }
    let mut i: usize = 0;
    while i < text.len()
        invariant
            i <= text.len(),
            text.len() == wanted.len(),
            wanted@ == word@,
            text@.take(i as int) == wanted@.take(i as int),
        decreases text.len() - i,
    {
        if text[i] != wanted[i] {
            return false;
        }
        assert(text@.take(i + 1) =~= text@.take(i as int).push(text@[i as int]));
        assert(wanted@.take(i + 1) =~= wanted@.take(i as int).push(wanted@[i as int]));
        i += 1;
    }
    assert(text@.take(i as int) =~= text@);
    assert(wanted@.take(i as int) =~= wanted@);
    true
}

} // verus!
