//! The sound system: everything that is known of a language's sounds.
use super::class_table::{lemma_with_classes, named_once, put_classes, with_classes};
use super::table::{
    lemma_with_entry, lemma_without, longest_first, one_entry_each, put_letter, remove_letter,
    with_entry, without,
};
use super::types::{
    clone_phones, lemma_phones_view, Class, ClassesView, Condition, ConditionView, Distribution, Phoneme,
    PhonemeCondition, PhonemeDifference, PhonemeDifferenceView, PhonemeView, Rule,
    RuleView, Syllable,
};
use crate::text::clone_strings;
use vstd::prelude::*;

verus! {

/// A sound system.
///
/// Only the table of pronunciations ever changes after the system is made,
/// and only through `update_phoneme`.
#[derive(Debug)]
pub struct SoundSystem {
    classes: Vec<Class>,
    phonemes: Vec<Phoneme>,
    syllables: Vec<Syllable>,
    distribution: Vec<Distribution>,
    rules: Vec<Rule>,
}

/// A sound system as plain data.
pub struct SoundSystemView {
    pub classes: ClassesView,
    pub phonemes: Seq<PhonemeView>,
    pub syllables: Seq<Seq<Seq<char>>>,
    pub distribution: Seq<(Seq<char>, u64)>,
    pub rules: Seq<RuleView>,
}

/// The table that results from entering the given pronunciations one after
/// another into an empty table.
pub open spec fn table_of(entries: Seq<PhonemeView>) -> Seq<PhonemeView>
    decreases entries.len(),
{
    if entries.len() == 0 {
        Seq::empty()
    } else {
        with_entry(table_of(entries.drop_last()), entries.last().0, entries.last().1)
    }
}

/// The table after one change.
pub open spec fn changed(table: Seq<PhonemeView>, difference: PhonemeDifferenceView) -> Seq<
    PhonemeView,
> {
    match difference {
        PhonemeDifferenceView::Skip => table,
        PhonemeDifferenceView::Delete(letter) => without(table, letter),
        PhonemeDifferenceView::Upsert(letter, phones) => with_entry(
            table,
            letter,
            seq![(phones, ConditionView::Always)],
        ),
    }
}

/// The table after a list of changes, made in order.
pub open spec fn updated(table: Seq<PhonemeView>, differences: Seq<PhonemeDifferenceView>) -> Seq<
    PhonemeView,
>
    decreases differences.len(),
{
    if differences.len() == 0 {
        table
    } else {
        changed(updated(table, differences.drop_last()), differences.last())
    }
}

/// A table made by `table_of` is in order and has one entry for each letter.
pub proof fn lemma_table_of(entries: Seq<PhonemeView>)
    ensures
        longest_first(table_of(entries)),
        one_entry_each(table_of(entries)),
    decreases entries.len(),
{
    if entries.len() > 0 {
        lemma_table_of(entries.drop_last());
        lemma_with_entry(table_of(entries.drop_last()), entries.last().0, entries.last().1);
    }
}

/// Changes keep a table in order and with one entry for each letter.
pub proof fn lemma_updated(table: Seq<PhonemeView>, differences: Seq<PhonemeDifferenceView>)
    requires
        longest_first(table),
        one_entry_each(table),
    ensures
        longest_first(updated(table, differences)),
        one_entry_each(updated(table, differences)),
    decreases differences.len(),
{
    if differences.len() > 0 {
        lemma_updated(table, differences.drop_last());
        let before = updated(table, differences.drop_last());
        match differences.last() {
            PhonemeDifferenceView::Skip => {},
            PhonemeDifferenceView::Delete(letter) => {
                lemma_without(before, letter);
            },
            PhonemeDifferenceView::Upsert(letter, phones) => {
                lemma_with_entry(before, letter, seq![(phones, ConditionView::Always)]);
            },
        }
    }
}

/// A copy of a list of pronunciations.
pub fn clone_realizations(list: &Vec<PhonemeCondition>) -> (copy: Vec<PhonemeCondition>)
    ensures
        copy.deep_view() == list.deep_view(),
{
    let mut copy: Vec<PhonemeCondition> = Vec::new();
    let mut i: usize = 0;
    while i < list.len()
        invariant
            i <= list.len(),
            copy.len() == i,
            forall|j: int| 0 <= j < i ==> (#[trigger] copy[j]).deep_view() == list[j].deep_view(),
        decreases list.len() - i,
    {
        let phones = clone_phones(&list[i].0);
        let condition = list[i].1.clone();
        copy.push((phones, condition));
        i += 1;
    }
    assert(copy.deep_view() =~= list.deep_view());
    copy
}

/// A copy of a list of rules.
pub fn clone_rules(rules: &Vec<Rule>) -> (copy: Vec<Rule>)
    ensures
        copy.deep_view() == rules.deep_view(),
{
    let mut copy: Vec<Rule> = Vec::new();
    let mut i: usize = 0;
    while i < rules.len()
        invariant
            i <= rules.len(),
            copy.len() == i,
            forall|j: int| 0 <= j < i ==> (#[trigger] copy[j]).deep_view() == rules[j].deep_view(),
        decreases rules.len() - i,
    {
        copy.push(rules[i].clone());
        i += 1;
    }
    assert(copy.deep_view() =~= rules.deep_view());
    copy
}

fn clone_table(table: &Vec<Phoneme>) -> (copy: Vec<Phoneme>)
    ensures
        copy.deep_view() == table.deep_view(),
{
    let mut copy: Vec<Phoneme> = Vec::new();
    let mut i: usize = 0;
    while i < table.len()
        invariant
            i <= table.len(),
            copy.len() == i,
            forall|j: int| 0 <= j < i ==> (#[trigger] copy[j]).deep_view() == table[j].deep_view(),
        decreases table.len() - i,
    {
        copy.push((table[i].0.clone(), clone_realizations(&table[i].1)));
        i += 1;
    }
    assert(copy.deep_view() =~= table.deep_view());
    copy
}

fn clone_lists(lists: &Vec<Vec<String>>) -> (copy: Vec<Vec<String>>)
    ensures
        copy.deep_view() == lists.deep_view(),
{
    let mut copy: Vec<Vec<String>> = Vec::new();
    let mut i: usize = 0;
    while i < lists.len()
        invariant
            i <= lists.len(),
            copy.len() == i,
            forall|j: int| 0 <= j < i ==> (#[trigger] copy[j]).deep_view() == lists[j].deep_view(),
        decreases lists.len() - i,
    {
        copy.push(clone_strings(&lists[i]));
        i += 1;
    }
    assert(copy.deep_view() =~= lists.deep_view());
    copy
}

fn clone_classes(classes: &Vec<Class>) -> (copy: Vec<Class>)
    ensures
        copy.deep_view() == classes.deep_view(),
{
    let mut copy: Vec<Class> = Vec::new();
    let mut i: usize = 0;
    while i < classes.len()
        invariant
            i <= classes.len(),
            copy.len() == i,
            forall|j: int|
                0 <= j < i ==> (#[trigger] copy[j]).deep_view() == classes[j].deep_view(),
        decreases classes.len() - i,
    {
        copy.push((classes[i].0.clone(), clone_strings(&classes[i].1)));
        i += 1;
    }
    assert(copy.deep_view() =~= classes.deep_view());
    copy
}

fn clone_distribution(distribution: &Vec<Distribution>) -> (copy: Vec<Distribution>)
    ensures
        copy.deep_view() == distribution.deep_view(),
{
    let mut copy: Vec<Distribution> = Vec::new();
    let mut i: usize = 0;
    while i < distribution.len()
        invariant
            i <= distribution.len(),
            copy.len() == i,
            forall|j: int|
                0 <= j < i ==> (#[trigger] copy[j]).deep_view() == distribution[j].deep_view(),
        decreases distribution.len() - i,
    {
        copy.push((distribution[i].0.clone(), distribution[i].1));
        i += 1;
    }
    assert(copy.deep_view() =~= distribution.deep_view());
    copy
}

impl Clone for SoundSystem {
    fn clone(&self) -> (copy: Self)
        ensures
            copy@ == self@,
    {
        proof {
            use_type_invariant(self);
        }
        SoundSystem {
            classes: clone_classes(&self.classes),
            phonemes: clone_table(&self.phonemes),
            syllables: clone_lists(&self.syllables),
            distribution: clone_distribution(&self.distribution),
            rules: clone_rules(&self.rules),
        }
    }
}

impl View for SoundSystem {
    type V = SoundSystemView;

    closed spec fn view(&self) -> SoundSystemView {
        SoundSystemView {
            classes: self.classes.deep_view(),
            phonemes: self.phonemes.deep_view(),
            syllables: self.syllables.deep_view(),
            distribution: self.distribution.deep_view(),
            rules: self.rules.deep_view(),
        }
    }
}

impl Default for SoundSystem {
    fn default() -> (system: Self)
        ensures
            system@.classes.len() == 0,
            system@.phonemes.len() == 0,
            system@.syllables.len() == 0,
            system@.distribution.len() == 0,
            system@.rules.len() == 0,
    {
        SoundSystem {
            classes: Vec::new(),
            phonemes: Vec::new(),
            syllables: Vec::new(),
            distribution: Vec::new(),
            rules: Vec::new(),
        }
    }
}

impl SoundSystem {
    /// The table is in order, longest letters first, no letter has two
    /// entries, and no class name is declared twice.
    #[verifier::type_invariant]
    pub closed spec fn well_formed(self) -> bool {
        &&& longest_first(self.phonemes.deep_view())
        &&& one_entry_each(self.phonemes.deep_view())
        &&& named_once(self.classes.deep_view())
    }

    /// A system with nothing in it.
    pub fn with_default() -> (system: Self)
        ensures
            system@.classes.len() == 0,
            system@.phonemes.len() == 0,
            system@.syllables.len() == 0,
            system@.distribution.len() == 0,
            system@.rules.len() == 0,
    {
        SoundSystem::default()
    }

    /// A system made of its parts. The classes are declared and the
    /// pronunciations entered one after another, so that of a class or a
    /// letter given twice the later entry counts.
    pub fn new(
        classes: Vec<Class>,
        phonemes: Vec<Phoneme>,
        syllables: Vec<Syllable>,
        distribution: Vec<Distribution>,
        rules: Vec<Rule>,
    ) -> (system: Self)
        ensures
            system@.classes == with_classes(
                Seq::empty(),
                classes.deep_view(),
                classes.len() as int,
            ),
            system@.phonemes == table_of(phonemes.deep_view()),
            system@.syllables == syllables.deep_view(),
            system@.distribution == distribution.deep_view(),
            system@.rules == rules.deep_view(),
    {
        let ghost entries = phonemes.deep_view();
        let mut table: Vec<Phoneme> = Vec::new();
        let mut i: usize = 0;
        while i < phonemes.len()
            invariant
                i <= phonemes.len(),
                entries == phonemes.deep_view(),
                table.deep_view() == table_of(entries.take(i as int)),
            decreases phonemes.len() - i,
        {
            let letter = phonemes[i].0.clone();
            let realizations = clone_realizations(&phonemes[i].1);
            assert(entries.take(i + 1).drop_last() =~= entries.take(i as int));
            assert(entries.take(i + 1).last() == entries[i as int]);
            assert(entries[i as int] == (letter@, realizations.deep_view()));
            put_letter(&mut table, letter, realizations);
            i += 1;
        }
        assert(entries.take(i as int) =~= entries);
        let mut declared: Vec<Class> = Vec::new();
        assert(declared.deep_view() =~= Seq::empty());
        put_classes(&mut declared, &classes);
        proof {
            lemma_table_of(entries);
            lemma_with_classes(Seq::empty(), classes.deep_view(), classes.len() as int);
        }
        SoundSystem { classes: declared, phonemes: table, syllables, distribution, rules }
    }

    /// A system made of its parts, the table as it stands.
    pub(crate) fn assemble(
        classes: Vec<Class>,
        table: Vec<Phoneme>,
        syllables: Vec<Syllable>,
        distribution: Vec<Distribution>,
        rules: Vec<Rule>,
    ) -> (system: Self)
        requires
            longest_first(table.deep_view()),
            one_entry_each(table.deep_view()),
            named_once(classes.deep_view()),
        ensures
            system@.classes == classes.deep_view(),
            system@.phonemes == table.deep_view(),
            system@.syllables == syllables.deep_view(),
            system@.distribution == distribution.deep_view(),
            system@.rules == rules.deep_view(),
    {
        SoundSystem { classes, phonemes: table, syllables, distribution, rules }
    }

    /// The table of pronunciations, longest letters first.
    pub fn phonemes_sorted(&self) -> (table: &Vec<Phoneme>)
        ensures
            table.deep_view() == self@.phonemes,
            longest_first(self@.phonemes),
            one_entry_each(self@.phonemes),
    {
        proof {
            use_type_invariant(self);
        }
        &self.phonemes
    }

    /// The table of pronunciations.
    pub fn phonemes_non_mut(&self) -> (table: &Vec<Phoneme>)
        ensures
            table.deep_view() == self@.phonemes,
    {
        &self.phonemes
    }

    /// The syllable shapes.
    pub fn syllables(&self) -> (syllables: &Vec<Syllable>)
        ensures
            syllables.deep_view() == self@.syllables,
    {
        &self.syllables
    }

    /// The classes, in the order of their declaration; no name occurs
    /// twice.
    pub fn classes(&self) -> (classes: &Vec<Class>)
        ensures
            classes.deep_view() == self@.classes,
            named_once(self@.classes),
    {
        proof {
            use_type_invariant(self);
        }
        &self.classes
    }

    /// The letters and their weights.
    pub fn distribution(&self) -> (distribution: &Vec<Distribution>)
        ensures
            distribution.deep_view() == self@.distribution,
    {
        &self.distribution
    }

    /// The rules, in the order in which they are applied.
    pub fn rules(&self) -> (rules: &Vec<Rule>)
        ensures
            rules.deep_view() == self@.rules,
    {
        &self.rules
    }

    /// Makes the given changes to the table of pronunciations, in order: a
    /// deletion takes a letter out, an upsert gives a letter one
    /// pronunciation that always applies.
    pub fn update_phoneme(&mut self, diffs: &Vec<PhonemeDifference>)
        ensures
            final(self)@.phonemes == updated(old(self)@.phonemes, diffs.deep_view()),
            final(self)@.classes == old(self)@.classes,
            final(self)@.syllables == old(self)@.syllables,
            final(self)@.distribution == old(self)@.distribution,
            final(self)@.rules == old(self)@.rules,
    {
        proof {
            use_type_invariant(&*self);
        }
        let ghost before = self.phonemes.deep_view();
        let ghost changes = diffs.deep_view();
        let mut table: Vec<Phoneme> = Vec::new();
        std::mem::swap(&mut table, &mut self.phonemes);
        let mut i: usize = 0;
        while i < diffs.len()
            invariant
                i <= diffs.len(),
                changes == diffs.deep_view(),
                table.deep_view() == updated(before, changes.take(i as int)),
            decreases diffs.len() - i,
        {
            assert(changes.take(i + 1).drop_last() =~= changes.take(i as int));
            assert(changes.take(i + 1).last() == diffs[i as int].deep_view());
            match &diffs[i] {
                PhonemeDifference::Skip => {},
                PhonemeDifference::Delete(letter) => {
                    remove_letter(&mut table, letter.as_str());
                },
                PhonemeDifference::Upsert(letter, phones) => {
                    let mut realizations: Vec<PhonemeCondition> = Vec::new();
                    realizations.push((clone_phones(phones), Condition::Always));
                    proof {
                        lemma_phones_view(realizations[0].0);
                    }
                    assert(realizations.deep_view() =~= seq![(phones@, ConditionView::Always)]);
                    put_letter(&mut table, letter.clone(), realizations);
                },
            }
            i += 1;
        }
        assert(changes.take(i as int) =~= changes);
        proof {
            lemma_updated(before, changes);
        }
        self.phonemes = table;
    }
}

} // verus!
