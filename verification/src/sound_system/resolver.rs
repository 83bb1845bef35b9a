//! Spelling a word out in the phonetic alphabet.
//!
//! The word is read from left to right. At each place the table of
//! pronunciations is tried from its first entry on, longest letters first:
//! the first letter that stands at the place and has a pronunciation whose
//! condition holds there is read, and its phones are written. Of a letter's
//! pronunciations those with a condition of their own are tried before those
//! that always apply. Where nothing can be read, one character is passed
//! over.
use super::class_table::{find_class, letters_of};
use super::phone::codec::ipa_of_phone;
use super::phone::Phone;
use super::system::{SoundSystem, SoundSystemView};
use super::table::{lemma_without, longest_first, one_entry_each, without};
use super::types::{
    Class, ClassesView, Condition, ConditionOperand, ConditionType, ConditionTypeView,
    ConditionView, Phoneme, PhonemeCondition, PhonemeView, RealizationView,
};
use crate::text::{char_text, chars_of, is_at, is_char, stands_at, uppercase};
use vstd::prelude::*;

verus! {

/// Whether the character of `word` at the place `at` is what the pattern
/// character `c` asks for: `c` itself, or, where `c` is an uppercase letter,
/// any one-character letter of the class that `c` names.
pub open spec fn admits(classes: ClassesView, word: Seq<char>, at: int, c: char) -> bool {
    &&& 0 <= at < word.len()
    &&& if uppercase(c) {
        match letters_of(classes, seq![c]) {
            Some(letters) => letters.contains(seq![word[at]]),
            None => false,
        }
    } else {
        word[at] == c
    }
}

/// Whether the characters of `word` from the place `at` on are what the
/// pattern asks for, character by character.
pub open spec fn follows(classes: ClassesView, word: Seq<char>, at: int, pattern: Seq<char>) -> bool {
    forall|i: int| 0 <= i < pattern.len() ==> admits(classes, word, at + i, #[trigger] pattern[i])
}

/// Whether a single test holds for a letter of `length` characters read at
/// the place `at` of `word`. A letter is followed by what stands behind it.
/// The tests `Between` and `Empty` never hold.
pub open spec fn test_holds(
    classes: ClassesView,
    word: Seq<char>,
    at: int,
    length: int,
    test: ConditionTypeView,
) -> bool {
    match test {
        ConditionTypeView::BeginningWord => at == 0,
        ConditionTypeView::EndWord => at + length == word.len(),
        ConditionTypeView::FollowedBy(pattern) => follows(classes, word, at + length, pattern),
        ConditionTypeView::Between(_, _) => false,
        ConditionTypeView::Empty => false,
    }
}

/// Whether a condition holds for a letter of `length` characters read at the
/// place `at` of `word`.
pub open spec fn holds(
    classes: ClassesView,
    word: Seq<char>,
    at: int,
    length: int,
    condition: ConditionView,
) -> bool
    decreases condition,
{
    match condition {
        ConditionView::Always => true,
        ConditionView::Single(test) => test_holds(classes, word, at, length, test),
        ConditionView::Not(test) => !test_holds(classes, word, at, length, test),
        ConditionView::Binary { operand, left, right } => match operand {
            ConditionOperand::And => holds(classes, word, at, length, *left) && holds(
                classes,
                word,
                at,
                length,
                *right,
            ),
            ConditionOperand::Or => holds(classes, word, at, length, *left) || holds(
                classes,
                word,
                at,
                length,
                *right,
            ),
        },
    }
}

/// Whether a pronunciation is of the wanted kind, with a condition of its
/// own if `own` is set and always applying if it is not, and its condition
/// holds.
pub open spec fn applies(
    classes: ClassesView,
    word: Seq<char>,
    at: int,
    length: int,
    realization: RealizationView,
    own: bool,
) -> bool {
    (realization.1 != ConditionView::Always) == own && holds(
        classes,
        word,
        at,
        length,
        realization.1,
    )
}

/// The first pronunciation at or after `from` that has a condition of its
/// own, if `own` is set, or that always applies, if it is not, and whose
/// condition holds; the length of the list if there is none.
pub open spec fn choice_from(
    classes: ClassesView,
    word: Seq<char>,
    at: int,
    length: int,
    list: Seq<RealizationView>,
    own: bool,
    from: int,
) -> int
    decreases list.len() - from,
{
    if from < 0 || from >= list.len() {
        list.len() as int
    } else if applies(classes, word, at, length, list[from], own) {
        from
    } else {
        choice_from(classes, word, at, length, list, own, from + 1)
    }
}

/// The pronunciation that is read: the first with a condition of its own
/// that holds, else the first that always applies.
pub open spec fn choice(
    classes: ClassesView,
    word: Seq<char>,
    at: int,
    length: int,
    list: Seq<RealizationView>,
) -> Option<int> {
    let own = choice_from(classes, word, at, length, list, true, 0);
    let always = choice_from(classes, word, at, length, list, false, 0);
    if own < list.len() {
        Some(own)
    } else if always < list.len() {
        Some(always)
    } else {
        None
    }
}

/// Whether the entry can be read at the place `at`: its letter is not empty
/// and stands there, and one of its pronunciations applies.
pub open spec fn readable(classes: ClassesView, word: Seq<char>, at: int, entry: PhonemeView) -> bool {
    &&& entry.0.len() > 0
    &&& stands_at(word, at, entry.0)
    &&& choice(classes, word, at, entry.0.len() as int, entry.1) is Some
}

/// The first entry at or after `from` that can be read at the place `at`;
/// the length of the table if there is none.
pub open spec fn entry_from(
    classes: ClassesView,
    table: Seq<PhonemeView>,
    word: Seq<char>,
    at: int,
    from: int,
) -> int
    decreases table.len() - from,
{
    if from < 0 || from >= table.len() {
        table.len() as int
    } else if readable(classes, word, at, table[from]) {
        from
    } else {
        entry_from(classes, table, word, at, from + 1)
    }
}

/// The characters that a list of phones is written with, in order. A phone
/// that has no character is left out.
pub open spec fn written(phones: Seq<Phone>) -> Seq<char>
    decreases phones.len(),
{
    if phones.len() == 0 {
        Seq::empty()
    } else {
        let before = written(phones.drop_last());
        match ipa_of_phone(phones.last()) {
            Some(c) => before.push(c),
            None => before,
        }
    }
}

/// What is written for the part of `word` from the place `at` on.
pub open spec fn ipa_from(
    classes: ClassesView,
    table: Seq<PhonemeView>,
    word: Seq<char>,
    at: int,
) -> Seq<char>
    decreases word.len() - at,
{
    if at < 0 || at >= word.len() {
        Seq::empty()
    } else {
        let k = entry_from(classes, table, word, at, 0);
        if 0 <= k < table.len() && readable(classes, word, at, table[k]) {
            let j = choice(classes, word, at, table[k].0.len() as int, table[k].1)->0;
            written(table[k].1[j].0) + ipa_from(classes, table, word, at + table[k].0.len())
        } else {
            ipa_from(classes, table, word, at + 1)
        }
    }
}

/// The phonetic spelling of `word` in a sound system.
pub open spec fn ipa_of(system: SoundSystemView, word: Seq<char>) -> Seq<char> {
    ipa_from(system.classes, system.phonemes, word, 0)
}

/// Where `choice_from` points, a pronunciation of the wanted kind applies,
/// and none before.
pub proof fn lemma_choice_from(
    classes: ClassesView,
    word: Seq<char>,
    at: int,
    length: int,
    list: Seq<RealizationView>,
    own: bool,
    from: int,
)
    requires
        0 <= from <= list.len(),
    ensures
        from <= choice_from(classes, word, at, length, list, own, from) <= list.len(),
        ({
            let j = choice_from(classes, word, at, length, list, own, from);
            j < list.len() ==> applies(classes, word, at, length, list[j], own)
        }),
        forall|k: int|
            from <= k < choice_from(classes, word, at, length, list, own, from) ==> !applies(
                classes,
                word,
                at,
                length,
                #[trigger] list[k],
                own,
            ),
    decreases list.len() - from,
{
    if from < list.len() && !applies(classes, word, at, length, list[from], own) {
        lemma_choice_from(classes, word, at, length, list, own, from + 1);
    }
}

/// Where `entry_from` points, an entry can be read, and none before.
pub proof fn lemma_entry_from(
    classes: ClassesView,
    table: Seq<PhonemeView>,
    word: Seq<char>,
    at: int,
    from: int,
)
    requires
        0 <= from <= table.len(),
    ensures
        from <= entry_from(classes, table, word, at, from) <= table.len(),
        entry_from(classes, table, word, at, from) < table.len() ==> readable(
            classes,
            word,
            at,
            table[entry_from(classes, table, word, at, from)],
        ),
        forall|k: int|
            from <= k < entry_from(classes, table, word, at, from) ==> !readable(
                classes,
                word,
                at,
                #[trigger] table[k],
            ),
    decreases table.len() - from,
{
    if from < table.len() && !readable(classes, word, at, table[from]) {
        lemma_entry_from(classes, table, word, at, from + 1);
    }
}

/// Reading is greedy: in a table that is in order, no entry that could be
/// read at a place has a longer letter than the entry that is read there.
pub proof fn lemma_longest_is_read(
    classes: ClassesView,
    table: Seq<PhonemeView>,
    word: Seq<char>,
    at: int,
    other: int,
)
    requires
        longest_first(table),
        0 <= other < table.len(),
        readable(classes, word, at, table[other]),
    ensures
        0 <= entry_from(classes, table, word, at, 0) <= other,
        table[entry_from(classes, table, word, at, 0)].0.len() >= table[other].0.len(),
        readable(classes, word, at, table[entry_from(classes, table, word, at, 0)]),
{
    lemma_entry_from(classes, table, word, at, 0);
}

/// The test for the beginning of the word holds at the first place and
/// nowhere else, and the test for its end where the letter ends the word.
pub proof fn lemma_word_edges(classes: ClassesView, word: Seq<char>, at: int, length: int)
    ensures
        holds(classes, word, at, length, ConditionView::Single(ConditionTypeView::BeginningWord))
            <==> at == 0,
        holds(classes, word, at, length, ConditionView::Single(ConditionTypeView::EndWord)) <==> at
            + length == word.len(),
        holds(classes, word, at, length, ConditionView::Always),
{
}

/// A pronunciation whose condition does not hold at a place is not the one
/// read there.
pub proof fn lemma_gated(
    classes: ClassesView,
    word: Seq<char>,
    at: int,
    length: int,
    list: Seq<RealizationView>,
    gated: int,
)
    requires
        0 <= gated < list.len(),
        !holds(classes, word, at, length, list[gated].1),
    ensures
        choice(classes, word, at, length, list) != Some(gated),
{
    lemma_choice_from(classes, word, at, length, list, true, 0);
    lemma_choice_from(classes, word, at, length, list, false, 0);
}

/// Where none of a letter's pronunciations with a condition of its own
/// applies, the first that always applies is read.
pub proof fn lemma_fallback(
    classes: ClassesView,
    word: Seq<char>,
    at: int,
    length: int,
    list: Seq<RealizationView>,
    always: int,
)
    requires
        0 <= always < list.len(),
        list[always].1 == ConditionView::Always,
        forall|j: int| 0 <= j < always ==> (#[trigger] list[j]).1 != ConditionView::Always,
        forall|j: int|
            0 <= j < list.len() && (#[trigger] list[j]).1 != ConditionView::Always ==> !holds(
                classes,
                word,
                at,
                length,
                list[j].1,
            ),
    ensures
        choice(classes, word, at, length, list) == Some(always),
{
    lemma_choice_from(classes, word, at, length, list, true, 0);
    lemma_choice_from(classes, word, at, length, list, false, 0);
    let own = choice_from(classes, word, at, length, list, true, 0);
    if own < list.len() {
        assert(applies(classes, word, at, length, list[own], true));
    }
    let found = choice_from(classes, word, at, length, list, false, 0);
    assert(applies(classes, word, at, length, list[always], false));
    if found < always {
        assert(applies(classes, word, at, length, list[found], false));
    }
}

/// Once a letter is taken out of the table, no place of any word is read as
/// that letter.
pub proof fn lemma_deleted_is_not_read(
    classes: ClassesView,
    table: Seq<PhonemeView>,
    letter: Seq<char>,
    word: Seq<char>,
    at: int,
)
    requires
        longest_first(table),
        one_entry_each(table),
    ensures
        ({
            let after = without(table, letter);
            let k = entry_from(classes, after, word, at, 0);
            k < after.len() ==> after[k].0 != letter
        }),
{
    lemma_without(table, letter);
    lemma_entry_from(classes, without(table, letter), word, at, 0);
}

/// Where no entry can be read, one character is passed over and nothing is
/// written for it.
pub proof fn lemma_unreadable_is_passed_over(
    classes: ClassesView,
    table: Seq<PhonemeView>,
    word: Seq<char>,
    at: int,
)
    requires
        0 <= at < word.len(),
        forall|k: int| 0 <= k < table.len() ==> !readable(classes, word, at, #[trigger] table[k]),
    ensures
        ipa_from(classes, table, word, at) == ipa_from(classes, table, word, at + 1),
{
    lemma_entry_from(classes, table, word, at, 0);
}

fn char_admitted(classes: &Vec<Class>, word: &Vec<char>, at: usize, c: char) -> (yes: bool)
    ensures
        yes == admits(classes.deep_view(), word@, at as int, c),
{
    if at >= word.len() {
        return false;
    }
    if c.is_uppercase() {
        let name = char_text(c);
        match find_class(classes, name.as_str()) {
            Some(k) => {
                let letters = &classes[k].1;
                let ghost view = letters.deep_view();
                let ghost wanted = seq![word@[at as int]];
                let mut i: usize = 0;
                while i < letters.len()
                    invariant
                        i <= letters.len(),
                        view == letters.deep_view(),
                        at < word.len(),
                        wanted == seq![word@[at as int]],
                        uppercase(c),
                        letters_of(classes.deep_view(), seq![c]) == Some(view),
                        forall|j: int| 0 <= j < i ==> view[j] != wanted,
                    decreases letters.len() - i,
                {
                    assert(view[i as int] == letters[i as int]@);
                    if is_char(letters[i].as_str(), word[at]) {
                        assert(view.contains(wanted));
                        return true;
                    }
                    i += 1;
                }
                assert(!view.contains(wanted));
                false
            },
            None => false,
        }
    } else {
        word[at] == c
    }
}

fn pattern_follows(classes: &Vec<Class>, word: &Vec<char>, at: usize, pattern: &str) -> (yes: bool)
    ensures
        yes == follows(classes.deep_view(), word@, at as int, pattern@),
{
    let wanted = chars_of(pattern);
    let mut i: usize = 0;
    while i < wanted.len()
        invariant
            i <= wanted.len(),
            wanted@ == pattern@,
            forall|j: int|
                0 <= j < i ==> admits(classes.deep_view(), word@, at + j, #[trigger] wanted@[j]),
        decreases wanted.len() - i,
    {
        if i > usize::MAX - at {
            assert(word.len() <= usize::MAX);
            assert(!admits(classes.deep_view(), word@, at + i, wanted@[i as int]));
            return false;
        }
        if !char_admitted(classes, word, at + i, wanted[i]) {
            return false;
        }
        i += 1;
    }
    true
}

/// Whether a single test holds for a letter of `length` characters read at
/// the place `at` of `word`.
pub fn resolve_condition_type(
    classes: &Vec<Class>,
    word: &Vec<char>,
    at: usize,
    length: usize,
    test: &ConditionType,
) -> (yes: bool)
    ensures
        yes == test_holds(classes.deep_view(), word@, at as int, length as int, test.deep_view()),
{
    match test {
        ConditionType::BeginningWord => at == 0,
        ConditionType::EndWord => length <= word.len() && at == word.len() - length,
        ConditionType::FollowedBy(pattern) => {
            if length > usize::MAX - at {
                let wanted = chars_of(pattern.as_str());
                if wanted.len() > 0 {
                    assert(word.len() <= usize::MAX);
                    assert(!admits(classes.deep_view(), word@, at + length + 0, wanted@[0]));
                }
                wanted.len() == 0
            } else {
                pattern_follows(classes, word, at + length, pattern.as_str())
            }
        },
        _ => false,
    }
}

/// Whether a condition holds for a letter of `length` characters read at the
/// place `at` of `word`. Both sides of a compound condition are looked at.
pub fn resolve_condition(
    classes: &Vec<Class>,
    word: &Vec<char>,
    at: usize,
    length: usize,
    condition: &Condition,
) -> (yes: bool)
    ensures
        yes == holds(classes.deep_view(), word@, at as int, length as int, condition.deep_view()),
    decreases condition,
{
    match condition {
        Condition::Always => true,
        Condition::Single(test) => resolve_condition_type(classes, word, at, length, test),
        Condition::Not(test) => !resolve_condition_type(classes, word, at, length, test),
        Condition::Binary { operand, left, right } => {
            let left_holds = resolve_condition(classes, word, at, length, &**left);
            let right_holds = resolve_condition(classes, word, at, length, &**right);
            match operand {
                ConditionOperand::And => left_holds && right_holds,
                ConditionOperand::Or => left_holds || right_holds,
            }
        },
    }
}

fn is_always(condition: &Condition) -> (yes: bool)
    ensures
        yes == (condition.deep_view() == ConditionView::Always),
{
    match condition {
        Condition::Always => true,
        _ => false,
    }
}

fn pick(
    classes: &Vec<Class>,
    word: &Vec<char>,
    at: usize,
    length: usize,
    list: &Vec<PhonemeCondition>,
    own: bool,
) -> (found: usize)
    requires
        at + length <= word.len(),
    ensures
        found == choice_from(
            classes.deep_view(),
            word@,
            at as int,
            length as int,
            list.deep_view(),
            own,
            0,
        ),
        found <= list.len(),
{
    let ghost view = list.deep_view();
    let mut j: usize = 0;
    while j < list.len()
        invariant
            j <= list.len(),
            at + length <= word.len(),
            view == list.deep_view(),
            choice_from(classes.deep_view(), word@, at as int, length as int, view, own, 0)
                == choice_from(
                classes.deep_view(),
                word@,
                at as int,
                length as int,
                view,
                own,
                j as int,
            ),
        decreases list.len() - j,
    {
        assert(view[j as int].1 == list[j as int].1.deep_view());
        if !is_always(&list[j].1) == own && resolve_condition(
            classes,
            word,
            at,
            length,
            &list[j].1,
        ) {
            return j;
        }
        j += 1;
    }
    j
}

/// The pronunciation of `entry` that is read at the place `at`, if the
/// entry can be read there.
fn find_phoneme<'a>(
    classes: &Vec<Class>,
    word: &Vec<char>,
    at: usize,
    entry: &'a Phoneme,
) -> (found: Option<(usize, &'a PhonemeCondition)>)
    ensures
        found is Some <==> readable(classes.deep_view(), word@, at as int, entry.deep_view()),
        found matches Some((length, realization)) ==> {
            &&& length == entry.0@.len()
            &&& at + length <= word.len()
            &&& choice(
                classes.deep_view(),
                word@,
                at as int,
                length as int,
                entry.1.deep_view(),
            ) is Some
            &&& realization.deep_view() == entry.1.deep_view()[choice(
                classes.deep_view(),
                word@,
                at as int,
                length as int,
                entry.1.deep_view(),
            )->0]
        },
{
    let letter = chars_of(entry.0.as_str());
    if letter.len() == 0 || !is_at(word, at, &letter) {
        return None;
    }
    let length = letter.len();
    let own = pick(classes, word, at, length, &entry.1, true);
    if own < entry.1.len() {
        assert(entry.1.deep_view()[own as int] == entry.1[own as int].deep_view());
        return Some((length, &entry.1[own]));
    }
    let always = pick(classes, word, at, length, &entry.1, false);
    if always < entry.1.len() {
        assert(entry.1.deep_view()[always as int] == entry.1[always as int].deep_view());
        return Some((length, &entry.1[always]));
    }
    None
}

/// Writes phones with their characters, leaving out those that have none.
pub fn write_phones(out: &mut String, phones: &Vec<Phone>)
    ensures
        final(out)@ == old(out)@ + written(phones@),
{
    let ghost before = out@;
    let mut i: usize = 0;
    while i < phones.len()
        invariant
            i <= phones.len(),
            out@ == before + written(phones@.take(i as int)),
        decreases phones.len() - i,
    {
        assert(phones@.take(i + 1).drop_last() =~= phones@.take(i as int));
        match phones[i].ipa() {
            Some(c) => {
                out.push(c);
                assert(out@ =~= before + written(phones@.take(i + 1)));
            },
            None => {},
        }
        i += 1;
    }
    assert(phones@.take(i as int) =~= phones@);
}

impl SoundSystem {
    /// Spells `word` out in the phonetic alphabet.
    pub fn ipa_representation(&self, word: &str) -> (spelling: String)
        ensures
            spelling@ == ipa_of(self@, word@),
    {
        let classes = self.classes();
        let table = self.phonemes_sorted();
        let chars = chars_of(word);
        let ghost cv = classes.deep_view();
        let ghost tv = table.deep_view();
        let mut spelling = String::new();
        let mut at: usize = 0;
        while at < chars.len()
            invariant
                at <= chars.len(),
                chars@ == word@,
                cv == classes.deep_view(),
                tv == table.deep_view(),
                spelling@ + ipa_from(cv, tv, chars@, at as int) == ipa_from(cv, tv, chars@, 0),
            decreases chars.len() - at,
        {
            let mut step: usize = 1;
            let mut k: usize = 0;
            let ghost start = spelling@;
            while k < table.len()
                invariant_except_break
                    k <= table.len(),
                    entry_from(cv, tv, chars@, at as int, 0) == entry_from(
                        cv,
                        tv,
                        chars@,
                        at as int,
                        k as int,
                    ),
                    step == 1,
                    spelling@ == start,
                invariant
                    at < chars.len(),
                    cv == classes.deep_view(),
                    tv == table.deep_view(),
                ensures
                    1 <= step,
                    at + step <= chars.len(),
                    spelling@ + ipa_from(cv, tv, chars@, at + step) == start + ipa_from(
                        cv,
                        tv,
                        chars@,
                        at as int,
                    ),
                decreases table.len() - k,
            {
                assert(tv[k as int] == table[k as int].deep_view());
                match find_phoneme(classes, &chars, at, &table[k]) {
                    Some((length, realization)) => {
                        proof {
                            super::types::lemma_phones_view(realization.0);
                        }
                        write_phones(&mut spelling, &realization.0);
                        step = length;
                        assert(spelling@ + ipa_from(cv, tv, chars@, at + step) =~= start + (written(
                            realization.0@,
                        ) + ipa_from(cv, tv, chars@, at + step)));
                        break ;
                    },
                    None => {},
                }
                k += 1;
            }
            assert(spelling@ + ipa_from(cv, tv, chars@, at + step) =~= start + ipa_from(
                cv,
                tv,
                chars@,
                at as int,
            ));
            at += step;
        }
        assert(spelling@ =~= spelling@ + ipa_from(cv, tv, chars@, at as int));
        spelling
    }
}

} // verus!
