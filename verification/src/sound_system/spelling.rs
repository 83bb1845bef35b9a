//! Building the table of pronunciations from a description: every declared
//! letter is first pronounced as it is spelled, then the pronunciations that
//! the description gives are entered.
use super::compiler::{convert_ipa_letters_to_sounds, phones_of};
use super::system::clone_realizations;
use super::table::{
    find_letter, lemma_with_entry, longest_first, one_entry_each, place_of, put_letter, with_entry,
};
use super::types::{
    lemma_phones_view, Condition, ConditionView, Phoneme, PhonemeCondition, PhonemeView,
    RealizationView,
};
use crate::wgl;
use vstd::prelude::*;

verus! {

/// The first place at or after `from` whose condition is `condition`, or the
/// length of the list.
pub open spec fn match_from(list: Seq<RealizationView>, condition: ConditionView, from: int) -> int
    decreases list.len() - from,
{
    if from < 0 || from >= list.len() {
        list.len() as int
    } else if list[from].1 == condition {
        from
    } else {
        match_from(list, condition, from + 1)
    }
}

/// The pronunciations with one more entered: it takes the place of the
/// first that has the same condition, or goes to the end.
pub open spec fn merged(
    list: Seq<RealizationView>,
    phones: Seq<super::phone::Phone>,
    condition: ConditionView,
) -> Seq<RealizationView> {
    let at = match_from(list, condition, 0);
    if at < list.len() {
        list.update(at, (phones, condition))
    } else {
        list.push((phones, condition))
    }
}

/// The pronunciations that a letter has in the table, none if it has no
/// entry.
pub open spec fn realizations_of(table: Seq<PhonemeView>, letter: Seq<char>) -> Seq<
    RealizationView,
> {
    match place_of(table, letter) {
        Some(at) => table[at].1,
        None => Seq::empty(),
    }
}

/// The table with one pronunciation of `letter` entered.
pub open spec fn with_realization(
    table: Seq<PhonemeView>,
    letter: Seq<char>,
    notation: Seq<char>,
    condition: ConditionView,
) -> Seq<PhonemeView> {
    with_entry(
        table,
        letter,
        merged(realizations_of(table, letter), phones_of(notation), condition),
    )
}

/// The table with the first `upto` of a letter's written pronunciations
/// entered.
pub open spec fn with_realizations(
    table: Seq<PhonemeView>,
    letter: Seq<char>,
    written: Seq<(Seq<char>, ConditionView)>,
    upto: int,
) -> Seq<PhonemeView>
    decreases upto,
{
    if upto <= 0 || upto > written.len() {
        table
    } else {
        with_realization(
            with_realizations(table, letter, written, upto - 1),
            letter,
            written[upto - 1].0,
            written[upto - 1].1,
        )
    }
}

/// The table with the pronunciations of the first `upto` letters of the
/// description entered.
pub open spec fn with_phonemes(
    table: Seq<PhonemeView>,
    phonemes: Seq<(Seq<char>, Seq<(Seq<char>, ConditionView)>)>,
    upto: int,
) -> Seq<PhonemeView>
    decreases upto,
{
    if upto <= 0 || upto > phonemes.len() {
        table
    } else {
        with_realizations(
            with_phonemes(table, phonemes, upto - 1),
            phonemes[upto - 1].0,
            phonemes[upto - 1].1,
            phonemes[upto - 1].1.len() as int,
        )
    }
}

/// The table in which each of the first `upto` declared letters is
/// pronounced as it is spelled, always.
pub open spec fn seeded(letters: Seq<(Seq<char>, u64)>, upto: int) -> Seq<PhonemeView>
    decreases upto,
{
    if upto <= 0 || upto > letters.len() {
        Seq::empty()
    } else {
        with_entry(
            seeded(letters, upto - 1),
            letters[upto - 1].0,
            seq![(phones_of(letters[upto - 1].0), ConditionView::Always)],
        )
    }
}

/// A seeded table is in order and has one entry for each letter.
pub proof fn lemma_seeded(letters: Seq<(Seq<char>, u64)>, upto: int)
    ensures
        longest_first(seeded(letters, upto)),
        one_entry_each(seeded(letters, upto)),
    decreases upto,
{
    if 0 < upto <= letters.len() {
        lemma_seeded(letters, upto - 1);
        lemma_with_entry(
            seeded(letters, upto - 1),
            letters[upto - 1].0,
            seq![(phones_of(letters[upto - 1].0), ConditionView::Always)],
        );
    }
}

/// Entering a letter's pronunciations keeps the table in order and with one
/// entry for each letter.
pub proof fn lemma_with_realizations(
    table: Seq<PhonemeView>,
    letter: Seq<char>,
    written: Seq<(Seq<char>, ConditionView)>,
    upto: int,
)
    requires
        longest_first(table),
        one_entry_each(table),
    ensures
        longest_first(with_realizations(table, letter, written, upto)),
        one_entry_each(with_realizations(table, letter, written, upto)),
    decreases upto,
{
    if 0 < upto <= written.len() {
        lemma_with_realizations(table, letter, written, upto - 1);
        let before = with_realizations(table, letter, written, upto - 1);
        lemma_with_entry(
            before,
            letter,
            merged(
                realizations_of(before, letter),
                phones_of(written[upto - 1].0),
                written[upto - 1].1,
            ),
        );
    }
}

/// Entering the pronunciations of a description keeps the table in order
/// and with one entry for each letter.
pub proof fn lemma_with_phonemes(
    table: Seq<PhonemeView>,
    phonemes: Seq<(Seq<char>, Seq<(Seq<char>, ConditionView)>)>,
    upto: int,
)
    requires
        longest_first(table),
        one_entry_each(table),
    ensures
        longest_first(with_phonemes(table, phonemes, upto)),
        one_entry_each(with_phonemes(table, phonemes, upto)),
    decreases upto,
{
    if 0 < upto <= phonemes.len() {
        lemma_with_phonemes(table, phonemes, upto - 1);
        lemma_with_realizations(
            with_phonemes(table, phonemes, upto - 1),
            phonemes[upto - 1].0,
            phonemes[upto - 1].1,
            phonemes[upto - 1].1.len() as int,
        );
    }
}

/// The condition that a written condition means.
pub fn convert_condition_type(test: &wgl::ConditionType) -> (meant: super::types::ConditionType)
    ensures
        meant.deep_view() == test.deep_view(),
{
    match test {
        wgl::ConditionType::Empty => super::types::ConditionType::Empty,
        wgl::ConditionType::BeginningWord => super::types::ConditionType::BeginningWord,
        wgl::ConditionType::EndWord => super::types::ConditionType::EndWord,
        wgl::ConditionType::FollowedBy(pattern) => super::types::ConditionType::FollowedBy(
            pattern.clone(),
        ),
        wgl::ConditionType::Between(before, after) => super::types::ConditionType::Between(
            before.clone(),
            after.clone(),
        ),
    }
}

/// The condition that a written condition means.
pub fn convert_condition(condition: &wgl::Condition) -> (meant: Condition)
    ensures
        meant.deep_view() == condition.deep_view(),
    decreases condition,
{
    match condition {
        wgl::Condition::Always => Condition::Always,
        wgl::Condition::Single(test) => Condition::Single(convert_condition_type(test)),
        wgl::Condition::Not(test) => Condition::Not(convert_condition_type(test)),
        wgl::Condition::And(left, right) => Condition::Binary {
            operand: super::types::ConditionOperand::And,
            left: Box::new(convert_condition(&**left)),
            right: Box::new(convert_condition(&**right)),
        },
        wgl::Condition::Or(left, right) => Condition::Binary {
            operand: super::types::ConditionOperand::Or,
            left: Box::new(convert_condition(&**left)),
            right: Box::new(convert_condition(&**right)),
        },
    }
}

/// Enters one pronunciation into a list of pronunciations.
pub fn merge(list: &mut Vec<PhonemeCondition>, phones: super::phone::Phones, condition: Condition)
    ensures
        final(list).deep_view() == merged(old(list).deep_view(), phones@, condition.deep_view()),
{
    let ghost before = list.deep_view();
    let ghost entry = (phones@, condition.deep_view());
    proof {
        lemma_phones_view(phones);
    }
    let mut i: usize = 0;
    while i < list.len()
        invariant
            i <= list.len(),
            before == list.deep_view(),
            before == old(list).deep_view(),
            phones.deep_view() == phones@,
            entry == (phones@, condition.deep_view()),
            match_from(before, condition.deep_view(), 0) == match_from(
                before,
                condition.deep_view(),
                i as int,
            ),
        decreases list.len() - i,
    {
        assert(before[i as int].1 == list[i as int].1.deep_view());
        if list[i].1.same(&condition) {
            list[i] = (phones, condition);
            assert(list.deep_view() =~= before.update(i as int, entry));
            return ;
        }
        i += 1;
    }
    list.push((phones, condition));
    assert(list.deep_view() =~= before.push(entry));
}

/// The table in which each declared letter is pronounced as it is spelled.
pub fn seed(letters: &Vec<wgl::Letter>) -> (table: Vec<Phoneme>)
    ensures
        table.deep_view() == seeded(letters.deep_view(), letters.len() as int),
{
    let ghost lv = letters.deep_view();
    let mut table: Vec<Phoneme> = Vec::new();
    let mut i: usize = 0;
    assert(table.deep_view() =~= seeded(lv, 0));
    while i < letters.len()
        invariant
            i <= letters.len(),
            lv == letters.deep_view(),
            table.deep_view() == seeded(lv, i as int),
        decreases letters.len() - i,
    {
        assert(lv[i as int] == letters[i as int].deep_view());
        let phones = convert_ipa_letters_to_sounds(letters[i].letter.as_str());
        proof {
            lemma_phones_view(phones);
        }
        let mut realizations: Vec<PhonemeCondition> = Vec::new();
        realizations.push((phones, Condition::Always));
        assert(realizations.deep_view() =~= seq![
            (phones_of(lv[i as int].0), ConditionView::Always),
        ]);
        put_letter(&mut table, letters[i].letter.clone(), realizations);
        i += 1;
    }
    table
}

/// Enters the written pronunciations of one letter into the table.
pub fn enter_letter(table: &mut Vec<Phoneme>, letter: &String, written: &Vec<wgl::Phoneme>)
    ensures
        final(table).deep_view() == with_realizations(
            old(table).deep_view(),
            letter@,
            written.deep_view(),
            written.len() as int,
        ),
{
    let ghost before = table.deep_view();
    let ghost wv = written.deep_view();
    let mut j: usize = 0;
    while j < written.len()
        invariant
            j <= written.len(),
            wv == written.deep_view(),
            table.deep_view() == with_realizations(before, letter@, wv, j as int),
        decreases written.len() - j,
    {
        assert(wv[j as int] == written[j as int].deep_view());
        let ghost now = table.deep_view();
        let phones = convert_ipa_letters_to_sounds(written[j].notation.as_str());
        let condition = convert_condition(&written[j].condition);
        let mut list: Vec<PhonemeCondition> = match find_letter(table, letter.as_str()) {
            Some(at) => {
                assert(now[at as int].1 == table[at as int].1.deep_view());
                clone_realizations(&table[at].1)
            },
            None => Vec::new(),
        };
        assert(list.deep_view() =~= realizations_of(now, letter@));
        merge(&mut list, phones, condition);
        put_letter(table, letter.clone(), list);
        j += 1;
    }
}

/// Enters the written pronunciations of a description into the table.
pub fn enter_phonemes(table: &mut Vec<Phoneme>, phonemes: &Vec<(String, Vec<wgl::Phoneme>)>)
    ensures
        final(table).deep_view() == with_phonemes(
            old(table).deep_view(),
            phonemes.deep_view(),
            phonemes.len() as int,
        ),
{
    let ghost before = table.deep_view();
    let ghost pv = phonemes.deep_view();
    let mut i: usize = 0;
    while i < phonemes.len()
        invariant
            i <= phonemes.len(),
            pv == phonemes.deep_view(),
            table.deep_view() == with_phonemes(before, pv, i as int),
        decreases phonemes.len() - i,
    {
        assert(pv[i as int] == phonemes[i as int].deep_view());
        assert(pv[i as int].1.len() == phonemes[i as int].1.len());
        enter_letter(table, &phonemes[i].0, &phonemes[i].1);
        i += 1;
    }
}

} // verus!
