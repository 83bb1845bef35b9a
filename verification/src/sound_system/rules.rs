//! Sound changes: applying the rules of a sound system to a list of words.
//!
//! The rules are applied in order, each to what the one before it left. A
//! sound rule rewrites every match of its pattern in every word; a phoneme
//! rule leaves the words alone and changes the table of pronunciations.
//! After each rule the words as they then stand are recorded.
use super::class_table::{find_class, index_of, letters_of, position};
use super::pattern::{compile, find_all, group_names, is_pattern, matches_in, names_of, Spans};
use super::system::{clone_rules, updated, SoundSystem};
use super::types::{Class, ClassesView, PhonemeView, Rule, RuleView};
use crate::text::{
    between, byte_len, char_text, chars_of, clone_strings, lemma_between_ends, slice, uppercase,
};
use vstd::prelude::*;
use vstd::string::{StringExecFns, StringSliceAdditionalSpecFns};

verus! {

/// What a run of the rules gives: the words at the end, and the words after
/// each rule.
#[derive(Debug, PartialEq, Eq)]
pub struct Transformation {
    pub output: Vec<String>,
    pub history: Vec<History>,
}

/// The words as they stand after one rule.
#[derive(Debug, PartialEq, Eq)]
pub struct History {
    pub rule: String,
    pub words: Vec<String>,
}

impl Default for Transformation {
    fn default() -> (empty: Self)
        ensures
            empty.output@.len() == 0,
            empty.history@.len() == 0,
    {
        Transformation { output: Vec::new(), history: Vec::new() }
    }
}

/// The groups that have a name, by their numbers, in order.
pub open spec fn named(names: Seq<Option<Seq<char>>>) -> Seq<usize>
    decreases names.len(),
{
    if names.len() == 0 {
        Seq::empty()
    } else {
        let before = named(names.drop_last());
        if names.last() is Some {
            before.push((names.len() - 1) as usize)
        } else {
            before
        }
    }
}

/// Whether a group's name is `input`, in capitals or small letters.
pub open spec fn is_input(name: Seq<char>) -> bool {
    &&& name.len() == 5
    &&& (name[0] == 'i' || name[0] == 'I')
    &&& (name[1] == 'n' || name[1] == 'N')
    &&& (name[2] == 'p' || name[2] == 'P')
    &&& (name[3] == 'u' || name[3] == 'U')
    &&& (name[4] == 't' || name[4] == 'T')
}

/// The text of a group, which is empty for one that took no part.
pub open spec fn text_of(group: Option<Seq<char>>) -> Seq<char> {
    match group {
        Some(text) => text,
        None => Seq::empty(),
    }
}

/// The texts of the groups numbered from `from` up to, not including, `to`,
/// one after another.
pub open spec fn copied(groups: Seq<Option<Seq<char>>>, from: int, to: int) -> Seq<char>
    decreases to - from,
{
    if from < 0 || from >= to || to > groups.len() {
        Seq::empty()
    } else {
        copied(groups, from, to - 1) + text_of(groups[to - 1])
    }
}

/// The letter that the group numbered `k` matched, and its place in the
/// class that the group is named after. The letter has no place if its class
/// is not declared or does not hold it. There is no letter at all if the
/// group has no name, is the input group, or took no part in the match.
pub open spec fn resolved(
    classes: ClassesView,
    names: Seq<Option<Seq<char>>>,
    groups: Seq<Option<Seq<char>>>,
    k: usize,
) -> Option<(Seq<char>, Option<usize>)> {
    if k < names.len() && k < groups.len() && names[k as int] is Some && !is_input(
        names[k as int]->0,
    ) && groups[k as int] is Some {
        let place = match letters_of(classes, names[k as int]->0) {
            Some(letters) => match index_of(letters, groups[k as int]->0) {
                Some(place) => Some(place as usize),
                None => None,
            },
            None => None,
        };
        Some((groups[k as int]->0, place))
    } else {
        None
    }
}

/// The matched class letters that wait to be replaced, each with its place
/// in its class if it has one, in the order of their groups.
pub open spec fn pending(
    classes: ClassesView,
    names: Seq<Option<Seq<char>>>,
    groups: Seq<Option<Seq<char>>>,
    numbers: Seq<usize>,
) -> Seq<(Seq<char>, Option<usize>)>
    decreases numbers.len(),
{
    if numbers.len() == 0 {
        Seq::empty()
    } else {
        let before = pending(classes, names, groups, numbers.drop_last());
        match resolved(classes, names, groups, numbers.last()) {
            Some(letter) => before.push(letter),
            None => before,
        }
    }
}

/// The letter of the class `name` at the given place, if there is a place,
/// the class is declared and it has so many letters.
pub open spec fn letter_at(classes: ClassesView, name: Seq<char>, place: Option<usize>) -> Option<
    Seq<char>,
> {
    match (letters_of(classes, name), place) {
        (Some(letters), Some(place)) => if place < letters.len() {
            Some(letters[place as int])
        } else {
            None
        },
        _ => None,
    }
}

/// The replacement written out from the place `at` of the template on, with
/// the waiting letters from `cursor` on. An uppercase character takes the
/// waiting letter at the cursor and stands for the letter at the same place
/// in its own class. Where there is no such letter, because the waiting
/// letter has no place or the class has no such place, the waiting letter is
/// written as it was matched and keeps waiting. An uppercase character for
/// which nothing waits writes nothing. Any other character stands for
/// itself.
pub open spec fn filled(
    classes: ClassesView,
    waiting: Seq<(Seq<char>, Option<usize>)>,
    template: Seq<char>,
    at: int,
    cursor: int,
) -> Seq<char>
    decreases template.len() - at,
{
    if at < 0 || at >= template.len() {
        Seq::empty()
    } else if uppercase(template[at]) {
        if 0 <= cursor < waiting.len() {
            match letter_at(classes, seq![template[at]], waiting[cursor].1) {
                Some(letter) => letter + filled(classes, waiting, template, at + 1, cursor + 1),
                None => waiting[cursor].0 + filled(classes, waiting, template, at + 1, cursor),
            }
        } else {
            filled(classes, waiting, template, at + 1, cursor)
        }
    } else {
        seq![template[at]] + filled(classes, waiting, template, at + 1, cursor)
    }
}

/// What stands in the place of the named groups of a match: with one named
/// group the replacement as it stands, or nothing where there is none; with
/// more, the replacement written out with the matched class letters.
pub open spec fn replaced_part(
    classes: ClassesView,
    names: Seq<Option<Seq<char>>>,
    replacement: Option<Seq<char>>,
    groups: Seq<Option<Seq<char>>>,
) -> Seq<char> {
    if named(names).len() <= 1 {
        text_of(replacement)
    } else {
        filled(classes, pending(classes, names, groups, named(names)), text_of(replacement), 0, 0)
    }
}

/// What one match is replaced with. `names` are the names of the pattern's
/// groups and `groups` the texts they matched, both by group number.
///
/// The unnamed groups before the first named group are copied, then comes
/// what stands in the place of the named groups, then the groups after the
/// last named group are copied. What the pattern matched outside of any
/// group is not kept. A match of a pattern without a named group gives way
/// to the replacement as it stands.
pub open spec fn rewritten(
    classes: ClassesView,
    names: Seq<Option<Seq<char>>>,
    replacement: Option<Seq<char>>,
    groups: Seq<Option<Seq<char>>>,
) -> Seq<char> {
    let numbers = named(names);
    if numbers.len() == 0 {
        text_of(replacement)
    } else {
        copied(groups, 1, numbers[0] as int) + replaced_part(
            classes,
            names,
            replacement,
            groups,
        ) + copied(groups, numbers.last() + 1, groups.len() as int)
    }
}

/// The texts of the groups of one match.
pub open spec fn texts(word: Seq<char>, spans: Seq<Option<(usize, usize)>>) -> Seq<
    Option<Seq<char>>,
> {
    Seq::new(
        spans.len(),
        |i: int|
            match spans[i] {
                Some((from, to)) => Some(between(word, from as int, to as int)),
                None => None,
            },
    )
}

/// The word with its matches rewritten, from the match numbered `k` on; the
/// part of the word up to the byte offset `last` is taken as done. What lies
/// between the matches stays as it is.
pub open spec fn spliced(
    classes: ClassesView,
    names: Seq<Option<Seq<char>>>,
    replacement: Option<Seq<char>>,
    word: Seq<char>,
    found: Seq<Seq<Option<(usize, usize)>>>,
    k: int,
    last: int,
) -> Seq<char>
    decreases found.len() - k,
{
    if k < 0 || k >= found.len() {
        between(word, last, byte_len(word))
    } else if found[k].len() > 0 && found[k][0] is Some {
        let whole = found[k][0]->0;
        between(word, last, whole.0 as int) + rewritten(
            classes,
            names,
            replacement,
            texts(word, found[k]),
        ) + spliced(classes, names, replacement, word, found, k + 1, whole.1 as int)
    } else {
        spliced(classes, names, replacement, word, found, k + 1, last)
    }
}

/// A word after a sound rule with the pattern `regex`.
pub open spec fn word_after(
    classes: ClassesView,
    regex: Seq<char>,
    replacement: Option<Seq<char>>,
    word: Seq<char>,
) -> Seq<char> {
    spliced(classes, group_names(regex), replacement, word, matches_in(regex, word), 0, 0)
}

/// The words after one rule. A sound rule whose pattern the engine does not
/// accept changes nothing, and a phoneme rule never changes a word.
pub open spec fn words_after_rule(classes: ClassesView, rule: RuleView, words: Seq<Seq<char>>) -> Seq<
    Seq<char>,
> {
    match rule {
        RuleView::SoundRule { regex, replacement, .. } => if is_pattern(regex) {
            Seq::new(words.len(), |i: int| word_after(classes, regex, replacement, words[i]))
        } else {
            words
        },
        RuleView::PhonemeRule { .. } => words,
    }
}

/// The words after the first `n` rules.
pub open spec fn words_after(
    classes: ClassesView,
    rules: Seq<RuleView>,
    words: Seq<Seq<char>>,
    n: int,
) -> Seq<Seq<char>>
    decreases n,
{
    if n <= 0 || n > rules.len() {
        words
    } else {
        words_after_rule(classes, rules[n - 1], words_after(classes, rules, words, n - 1))
    }
}

/// The table of pronunciations after the first `n` rules.
pub open spec fn table_after(table: Seq<PhonemeView>, rules: Seq<RuleView>, n: int) -> Seq<
    PhonemeView,
>
    decreases n,
{
    if n <= 0 || n > rules.len() {
        table
    } else {
        let before = table_after(table, rules, n - 1);
        match rules[n - 1] {
            RuleView::SoundRule { .. } => before,
            RuleView::PhonemeRule { phoneme_differences, .. } => updated(
                before,
                phoneme_differences,
            ),
        }
    }
}

/// Whether a history tells, for each rule in turn, its name and the words as
/// they stood after it.
pub open spec fn recorded(
    history: Seq<History>,
    classes: ClassesView,
    rules: Seq<RuleView>,
    words: Seq<Seq<char>>,
) -> bool {
    &&& history.len() == rules.len()
    &&& forall|i: int|
        0 <= i < history.len() ==> (#[trigger] history[i]).rule@ == rules[i].name()
            && history[i].words.deep_view() == words_after(classes, rules, words, i + 1)
}

/// Every number that `named` gives is the number of a group.
pub proof fn lemma_named(names: Seq<Option<Seq<char>>>)
    requires
        names.len() <= usize::MAX,
    ensures
        forall|i: int|
            0 <= i < named(names).len() ==> (#[trigger] named(names)[i]) < names.len() && names[named(
                names,
            )[i] as int] is Some,
        named(names).len() <= names.len(),
    decreases names.len(),
{
    if names.len() > 0 {
        lemma_named(names.drop_last());
        let before = named(names.drop_last());
        assert forall|i: int| 0 <= i < named(names).len() implies (#[trigger] named(names)[i])
            < names.len() && names[named(names)[i] as int] is Some by {
            if i < before.len() {
                assert(named(names)[i] == before[i]);
                assert(names.drop_last()[before[i] as int] == names[before[i] as int]);
            }
        }
    }
}

/// A word in which the pattern is not found stays as it is.
pub proof fn lemma_no_match_no_change(
    classes: ClassesView,
    names: Seq<Option<Seq<char>>>,
    replacement: Option<Seq<char>>,
    word: Seq<char>,
)
    ensures
        spliced(classes, names, replacement, word, Seq::empty(), 0, 0) == word,
{
    lemma_between_ends(word);
}

/// Whether a rule finds nothing to rewrite in any of the words: its pattern
/// matches in none of them, or it is a phoneme rule.
pub open spec fn finds_nothing(rule: RuleView, words: Seq<Seq<char>>) -> bool {
    match rule {
        RuleView::SoundRule { regex, .. } => forall|i: int|
            0 <= i < words.len() ==> (#[trigger] matches_in(regex, words[i])).len() == 0,
        RuleView::PhonemeRule { .. } => true,
    }
}

/// A rule that finds nothing leaves every word as it is.
pub proof fn lemma_rule_without_matches(classes: ClassesView, rule: RuleView, words: Seq<Seq<char>>)
    requires
        finds_nothing(rule, words),
    ensures
        words_after_rule(classes, rule, words) == words,
{
    match rule {
        RuleView::SoundRule { regex, replacement, .. } => {
            if is_pattern(regex) {
                assert forall|i: int| 0 <= i < words.len() implies word_after(
                    classes,
                    regex,
                    replacement,
                    words[i],
                ) == words[i] by {
                    assert(matches_in(regex, words[i]).len() == 0);
                    lemma_between_ends(words[i]);
                }
                assert(words_after_rule(classes, rule, words) =~= words);
            }
        },
        RuleView::PhonemeRule { .. } => {},
    }
}

/// As long as no rule finds anything, the words stay as they were, and so
/// every entry of the history holds the words that were given.
pub proof fn lemma_run_without_matches(
    classes: ClassesView,
    rules: Seq<RuleView>,
    words: Seq<Seq<char>>,
    n: int,
)
    requires
        0 <= n <= rules.len(),
        forall|k: int| 0 <= k < n ==> finds_nothing(#[trigger] rules[k], words),
    ensures
        words_after(classes, rules, words, n) == words,
    decreases n,
{
    if n > 0 {
        lemma_run_without_matches(classes, rules, words, n - 1);
        lemma_rule_without_matches(classes, rules[n - 1], words);
    }
}

/// The words are as many after any number of rules as they were before.
pub proof fn lemma_as_many_words(
    classes: ClassesView,
    rules: Seq<RuleView>,
    words: Seq<Seq<char>>,
    n: int,
)
    ensures
        words_after(classes, rules, words, n).len() == words.len(),
    decreases n,
{
    if 0 < n <= rules.len() {
        lemma_as_many_words(classes, rules, words, n - 1);
    }
}

/// A phoneme rule that deletes one letter takes that letter, and nothing
/// else, out of the table as it stands when the rule is met.
pub proof fn lemma_deleting_rule(
    table: Seq<PhonemeView>,
    rules: Seq<RuleView>,
    n: int,
    letter: Seq<char>,
)
    requires
        0 < n <= rules.len(),
        rules[n - 1] matches RuleView::PhonemeRule { phoneme_differences, .. }
            && phoneme_differences == seq![super::types::PhonemeDifferenceView::Delete(letter)],
    ensures
        table_after(table, rules, n) == super::table::without(
            table_after(table, rules, n - 1),
            letter,
        ),
{
    let changes = seq![super::types::PhonemeDifferenceView::Delete(letter)];
    let before = table_after(table, rules, n - 1);
    assert(changes.drop_last() =~= Seq::empty());
    assert(updated(before, changes.drop_last()) == before);
    assert(updated(before, changes) == super::system::changed(
        updated(before, changes.drop_last()),
        changes.last(),
    ));
}

fn named_groups(names: &Vec<Option<String>>) -> (numbers: Vec<usize>)
    ensures
        numbers@ == named(names.deep_view()),
{
    let ghost view = names.deep_view();
    let mut numbers: Vec<usize> = Vec::new();
    let mut i: usize = 0;
    while i < names.len()
        invariant
            i <= names.len(),
            view == names.deep_view(),
            numbers@ == named(view.take(i as int)),
        decreases names.len() - i,
    {
        assert(view.take(i + 1).drop_last() =~= view.take(i as int));
        assert(view.take(i + 1).last() == names[i as int].deep_view());
        if names[i].is_some() {
            numbers.push(i);
        }
        i += 1;
    }
    assert(view.take(i as int) =~= view);
    numbers
}

fn is_input_name(name: &str) -> (yes: bool)
    ensures
        yes == is_input(name@),
{
    let chars = chars_of(name);
    chars.len() == 5 && (chars[0] == 'i' || chars[0] == 'I') && (chars[1] == 'n' || chars[1]
        == 'N') && (chars[2] == 'p' || chars[2] == 'P') && (chars[3] == 'u' || chars[3] == 'U')
        && (chars[4] == 't' || chars[4] == 'T')
}

fn copy_groups(out: &mut String, groups: &Vec<Option<String>>, from: usize, to: usize)
    ensures
        final(out)@ == old(out)@ + copied(groups.deep_view(), from as int, to as int),
{
    let ghost before = out@;
    let ghost view = groups.deep_view();
    if from >= to || to > groups.len() {
        assert(out@ =~= before + copied(view, from as int, to as int));
        return ;
    }
    let mut i: usize = from;
    assert(out@ =~= before + copied(view, from as int, i as int));
    while i < to
        invariant
            from <= i <= to <= groups.len(),
            view == groups.deep_view(),
            out@ == before + copied(view, from as int, i as int),
        decreases to - i,
    {
        assert(view[i as int] == groups[i as int].deep_view());
        match &groups[i] {
            Some(text) => {
                out.append(text.as_str());
            },
            None => {},
        }
        assert(out@ =~= before + copied(view, from as int, i + 1));
        i += 1;
    }
}

fn resolve(
    classes: &Vec<Class>,
    names: &Vec<Option<String>>,
    groups: &Vec<Option<String>>,
    k: usize,
) -> (found: Option<(String, Option<usize>)>)
    ensures
        found.deep_view() == resolved(
            classes.deep_view(),
            names.deep_view(),
            groups.deep_view(),
            k,
        ),
{
    if k >= names.len() || k >= groups.len() {
        return None;
    }
    assert(names.deep_view()[k as int] == names[k as int].deep_view());
    assert(groups.deep_view()[k as int] == groups[k as int].deep_view());
    match (&names[k], &groups[k]) {
        (Some(name), Some(text)) => {
            if is_input_name(name.as_str()) {
                return None;
            }
            let place = match find_class(classes, name.as_str()) {
                Some(c) => position(&classes[c].1, text.as_str()),
                None => None,
            };
            Some((text.clone(), place))
        },
        _ => None,
    }
}

fn waiting_letters(
    classes: &Vec<Class>,
    names: &Vec<Option<String>>,
    groups: &Vec<Option<String>>,
    numbers: &Vec<usize>,
) -> (waiting: Vec<(String, Option<usize>)>)
    ensures
        waiting.deep_view() == pending(
            classes.deep_view(),
            names.deep_view(),
            groups.deep_view(),
            numbers@,
        ),
{
    let mut waiting: Vec<(String, Option<usize>)> = Vec::new();
    let mut i: usize = 0;
    assert(waiting.deep_view() =~= Seq::empty());
    while i < numbers.len()
        invariant
            i <= numbers.len(),
            waiting.deep_view() == pending(
                classes.deep_view(),
                names.deep_view(),
                groups.deep_view(),
                numbers@.take(i as int),
            ),
        decreases numbers.len() - i,
    {
        assert(numbers@.take(i + 1).drop_last() =~= numbers@.take(i as int));
        let ghost before = waiting.deep_view();
        match resolve(classes, names, groups, numbers[i]) {
            Some(letter) => {
                let ghost added = letter.deep_view();
                waiting.push(letter);
                assert(waiting.deep_view() =~= before.push(added));
            },
            None => {},
        }
        i += 1;
    }
    assert(numbers@.take(i as int) =~= numbers@);
    waiting
}

fn fill_template(
    out: &mut String,
    classes: &Vec<Class>,
    waiting: &Vec<(String, Option<usize>)>,
    template: &str,
)
    ensures
        final(out)@ == old(out)@ + filled(
            classes.deep_view(),
            waiting.deep_view(),
            template@,
            0,
            0,
        ),
{
    let ghost before = out@;
    let ghost cv = classes.deep_view();
    let ghost wv = waiting.deep_view();
    let chars = chars_of(template);
    let mut at: usize = 0;
    let mut cursor: usize = 0;
    assert(out@ + filled(cv, wv, chars@, 0, 0) =~= before + filled(cv, wv, chars@, 0, 0));
    while at < chars.len()
        invariant
            at <= chars.len(),
            cursor <= at,
            chars@ == template@,
            cv == classes.deep_view(),
            wv == waiting.deep_view(),
            out@ + filled(cv, wv, chars@, at as int, cursor as int) == before + filled(
                cv,
                wv,
                chars@,
                0,
                0,
            ),
        decreases chars.len() - at,
    {
        let c = chars[at];
        let ghost so_far = out@;
        let ghost rest = filled(cv, wv, chars@, at + 1, cursor as int);
        let ghost rest_next = filled(cv, wv, chars@, at + 1, cursor + 1);
        if c.is_uppercase() {
            if cursor < waiting.len() {
                assert(wv[cursor as int] == waiting[cursor as int].deep_view());
                let name = char_text(c);
                let mut written = false;
                match (find_class(classes, name.as_str()), waiting[cursor].1) {
                    (Some(k), Some(place)) => {
                        if place < classes[k].1.len() {
                            assert(classes[k as int].1.deep_view()[place as int]
                                == classes[k as int].1[place as int]@);
                            out.append(classes[k].1[place].as_str());
                            written = true;
                            assert(out@ + rest_next =~= so_far + (classes[k as int].1[place as int]@
                                + rest_next));
                        }
                    },
                    _ => {},
                }
                if written {
                    cursor += 1;
                } else {
                    out.append(waiting[cursor].0.as_str());
                    assert(out@ + rest =~= so_far + (waiting[cursor as int].0@ + rest));
                }
            }
        } else {
            out.push(c);
            assert(out@ + rest =~= so_far + (seq![c] + rest));
        }
        at += 1;
    }
    assert(out@ =~= out@ + filled(cv, wv, chars@, at as int, cursor as int));
}

/// What one match is replaced with, given the names of the pattern's groups
/// and the texts they matched.
pub fn rewrite_match(
    classes: &Vec<Class>,
    names: &Vec<Option<String>>,
    replacement: &Option<String>,
    groups: &Vec<Option<String>>,
) -> (out: String)
    ensures
        out@ == rewritten(
            classes.deep_view(),
            names.deep_view(),
            replacement.deep_view(),
            groups.deep_view(),
        ),
{
    let numbers = named_groups(names);
    proof {
        assert(names.deep_view().len() == names.len());
        lemma_named(names.deep_view());
    }
    let mut out = String::new();
    if numbers.len() == 0 {
        match replacement {
            Some(text) => {
                out.append(text.as_str());
                assert(out@ =~= text@);
            },
            None => {},
        }
        return out;
    }
    let first = numbers[0];
    let last = numbers[numbers.len() - 1];
    assert(last == named(names.deep_view())[numbers.len() - 1]);
    assert(last < names.len());
    copy_groups(&mut out, groups, 1, first);
    let ghost head = out@;
    if numbers.len() == 1 {
        match replacement {
            Some(text) => {
                out.append(text.as_str());
            },
            None => {
                assert(out@ =~= head + Seq::<char>::empty());
            },
        }
    } else {
        let waiting = waiting_letters(classes, names, groups, &numbers);
        match replacement {
            Some(text) => {
                fill_template(&mut out, classes, &waiting, text.as_str());
            },
            None => {
                assert(out@ =~= head + filled(
                    classes.deep_view(),
                    waiting.deep_view(),
                    Seq::empty(),
                    0,
                    0,
                ));
            },
        }
    }
    assert(out@ == head + replaced_part(
        classes.deep_view(),
        names.deep_view(),
        replacement.deep_view(),
        groups.deep_view(),
    ));
    assert(numbers@.last() == last);
    copy_groups(&mut out, groups, last + 1, groups.len());
    assert(head =~= copied(groups.deep_view(), 1, first as int));
    out
}

fn group_texts(word: &str, spans: &Spans) -> (groups: Vec<Option<String>>)
    ensures
        groups.deep_view() == texts(word@, spans.deep_view()),
{
    let ghost view = spans.deep_view();
    let mut groups: Vec<Option<String>> = Vec::new();
    let mut i: usize = 0;
    while i < spans.len()
        invariant
            i <= spans.len(),
            view == spans.deep_view(),
            groups.len() == i,
            forall|j: int|
                0 <= j < i ==> (#[trigger] groups[j]).deep_view() == texts(word@, view)[j],
        decreases spans.len() - i,
    {
        assert(view[i as int] == spans[i as int].deep_view());
        match spans[i] {
            Some((from, to)) => {
                let part = String::from_str(slice(word, from, to));
                groups.push(Some(part));
            },
            None => {
                groups.push(None);
            },
        }
        i += 1;
    }
    assert(groups.deep_view() =~= texts(word@, view));
    groups
}

/// Rewrites the matches `found` in `word`: what lies between them is kept
/// and each match gives way to what `rewrite_match` makes of it.
pub fn rewrite_word(
    classes: &Vec<Class>,
    names: &Vec<Option<String>>,
    replacement: &Option<String>,
    word: &str,
    found: &Vec<Spans>,
) -> (out: String)
    ensures
        out@ == spliced(
            classes.deep_view(),
            names.deep_view(),
            replacement.deep_view(),
            word@,
            found.deep_view(),
            0,
            0,
        ),
{
    let ghost cv = classes.deep_view();
    let ghost nv = names.deep_view();
    let ghost rv = replacement.deep_view();
    let ghost fv = found.deep_view();
    let mut out = String::new();
    let mut last: usize = 0;
    let mut k: usize = 0;
    assert(out@ + spliced(cv, nv, rv, word@, fv, 0, 0) =~= spliced(cv, nv, rv, word@, fv, 0, 0));
    while k < found.len()
        invariant
            k <= found.len(),
            cv == classes.deep_view(),
            nv == names.deep_view(),
            rv == replacement.deep_view(),
            fv == found.deep_view(),
            out@ + spliced(cv, nv, rv, word@, fv, k as int, last as int) == spliced(
                cv,
                nv,
                rv,
                word@,
                fv,
                0,
                0,
            ),
        decreases found.len() - k,
    {
        let spans = &found[k];
        assert(fv[k as int] == spans.deep_view());
        if spans.len() > 0 {
            assert(spans.deep_view()[0] == spans[0].deep_view());
            match spans[0] {
                Some((start, end)) => {
                    let ghost so_far = out@;
                    let ghost rest = spliced(cv, nv, rv, word@, fv, k + 1, end as int);
                    let kept = slice(word, last, start);
                    out.append(kept);
                    let groups = group_texts(word, spans);
                    let made = rewrite_match(classes, names, replacement, &groups);
                    out.append(made.as_str());
                    assert(out@ + rest =~= so_far + (kept@ + made@ + rest));
                    last = end;
                },
                None => {},
            }
        }
        k += 1;
    }
    let total = word.as_bytes().len();
    let tail = slice(word, last, total);
    out.append(tail);
    out
}

fn apply_sound_rule(
    classes: &Vec<Class>,
    engine: &regex::Regex,
    names: &Vec<Option<String>>,
    replacement: &Option<String>,
    word: &str,
) -> (out: String)
    requires
        names.deep_view() == group_names(super::pattern::source_of(*engine)),
    ensures
        out@ == word_after(
            classes.deep_view(),
            super::pattern::source_of(*engine),
            replacement.deep_view(),
            word@,
        ),
{
    let found = find_all(engine, word);
    rewrite_word(classes, names, replacement, word, &found)
}

/// The words after one sound rule.
fn apply_to_words(
    classes: &Vec<Class>,
    regex: &str,
    replacement: &Option<String>,
    words: Vec<String>,
) -> (out: Vec<String>)
    ensures
        out.deep_view() == words_after_rule(
            classes.deep_view(),
            RuleView::SoundRule {
                name: Seq::empty(),
                regex: regex@,
                replacement: replacement.deep_view(),
            },
            words.deep_view(),
        ),
{
    match compile(regex) {
        Ok(engine) => {
            let names = names_of(&engine);
            let mut out: Vec<String> = Vec::new();
            let mut i: usize = 0;
            while i < words.len()
                invariant
                    i <= words.len(),
                    out.len() == i,
                    super::pattern::source_of(engine) == regex@,
                    names.deep_view() == group_names(regex@),
                    forall|j: int|
                        0 <= j < i ==> (#[trigger] out[j])@ == word_after(
                            classes.deep_view(),
                            regex@,
                            replacement.deep_view(),
                            words[j]@,
                        ),
                decreases words.len() - i,
            {
                let word = apply_sound_rule(
                    classes,
                    &engine,
                    &names,
                    replacement,
                    words[i].as_str(),
                );
                out.push(word);
                i += 1;
            }
            assert(out.deep_view() =~= Seq::new(
                words.deep_view().len(),
                |i: int|
                    word_after(
                        classes.deep_view(),
                        regex@,
                        replacement.deep_view(),
                        words.deep_view()[i],
                    ),
            ));
            out
        },
        Err(_) => words,
    }
}

/// Applies the rules of the system to the words, in order, and records the
/// words after each rule. Phoneme rules change the system's table of
/// pronunciations as they are met.
pub fn sound_trasformation(sound_system: &mut SoundSystem, words: Vec<String>) -> (done:
    Transformation)
    ensures
        done.output.deep_view() == words_after(
            old(sound_system)@.classes,
            old(sound_system)@.rules,
            words.deep_view(),
            old(sound_system)@.rules.len() as int,
        ),
        recorded(
            done.history@,
            old(sound_system)@.classes,
            old(sound_system)@.rules,
            words.deep_view(),
        ),
        final(sound_system)@.phonemes == table_after(
            old(sound_system)@.phonemes,
            old(sound_system)@.rules,
            old(sound_system)@.rules.len() as int,
        ),
        final(sound_system)@.classes == old(sound_system)@.classes,
        final(sound_system)@.syllables == old(sound_system)@.syllables,
        final(sound_system)@.distribution == old(sound_system)@.distribution,
        final(sound_system)@.rules == old(sound_system)@.rules,
{
    let ghost before = sound_system@;
    let ghost start = words.deep_view();
    let rules = clone_rules(sound_system.rules());
    let mut history: Vec<History> = Vec::new();
    let mut words = words;
    let mut n: usize = 0;
    while n < rules.len()
        invariant
            n <= rules.len(),
            rules.deep_view() == before.rules,
            sound_system@.classes == before.classes,
            sound_system@.syllables == before.syllables,
            sound_system@.distribution == before.distribution,
            sound_system@.rules == before.rules,
            sound_system@.phonemes == table_after(before.phonemes, before.rules, n as int),
            words.deep_view() == words_after(before.classes, before.rules, start, n as int),
            history.len() == n,
            forall|i: int|
                0 <= i < n ==> (#[trigger] history[i]).rule@ == before.rules[i].name()
                    && history[i].words.deep_view() == words_after(
                    before.classes,
                    before.rules,
                    start,
                    i + 1,
                ),
        decreases rules.len() - n,
    {
        assert(before.rules[n as int] == rules[n as int].deep_view());
        match &rules[n] {
            Rule::SoundRule { name, regex, replacement } => {
                words = apply_to_words(sound_system.classes(), regex.as_str(), replacement, words);
                history.push(History { rule: name.clone(), words: clone_strings(&words) });
            },
            Rule::PhonemeRule { name, phoneme_differences } => {
                sound_system.update_phoneme(phoneme_differences);
                history.push(History { rule: name.clone(), words: clone_strings(&words) });
            },
        }
        n += 1;
    }
    Transformation { output: words, history }
}

impl SoundSystem {
    /// Applies the rules of the system to the words; see the function of the
    /// same name.
    pub fn sound_trasformation(&mut self, words: Vec<String>) -> (done: Transformation)
        ensures
            done.output.deep_view() == words_after(
                old(self)@.classes,
                old(self)@.rules,
                words.deep_view(),
                old(self)@.rules.len() as int,
            ),
            recorded(done.history@, old(self)@.classes, old(self)@.rules, words.deep_view()),
            final(self)@.phonemes == table_after(
                old(self)@.phonemes,
                old(self)@.rules,
                old(self)@.rules.len() as int,
            ),
            final(self)@.classes == old(self)@.classes,
            final(self)@.syllables == old(self)@.syllables,
            final(self)@.distribution == old(self)@.distribution,
            final(self)@.rules == old(self)@.rules,
    {
        sound_trasformation(self, words)
    }
}

} // verus!
