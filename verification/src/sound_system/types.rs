//! The parts of a sound system, and what each of them is as plain
//! mathematical data.
use super::phone::{Phone, Phones};
use vstd::prelude::*;

verus! {

/// A syllable shape: class names, `?` after a name marking an optional slot.
pub type Syllable = Vec<String>;

/// A letter and the weight with which it is drawn. Weights are whole
/// numbers; only their proportions matter.
pub type Distribution = (String, u64);

/// One way to pronounce a letter, and when it applies.
pub type PhonemeCondition = (Phones, Condition);

/// A letter and its pronunciations.
pub type Phoneme = (String, Vec<PhonemeCondition>);

/// A named class and its letters, in order.
pub type Class = (String, Vec<String>);

/// How often a generated word has a single syllable.
#[derive(Debug, PartialEq, Eq, Structural, Clone, Copy)]
pub enum MonoSyllableRepartition {
    Always,
    Mostly,
    Frequent,
    LessFrequent,
    Rare,
    Never,
}

/// What joins the two sides of a compound condition.
#[derive(Debug, PartialEq, Eq, Structural, Clone, Copy)]
pub enum ConditionOperand {
    And,
    Or,
}

/// A single test on the place of a letter in a word.
#[derive(Debug, PartialEq, Eq)]
pub enum ConditionType {
    Empty,
    BeginningWord,
    EndWord,
    FollowedBy(String),
    Between(String, String),
}

/// When a pronunciation applies.
#[derive(Debug, PartialEq, Eq)]
pub enum Condition {
    Always,
    Single(ConditionType),
    Not(ConditionType),
    Binary { operand: ConditionOperand, left: Box<Condition>, right: Box<Condition> },
}

/// One change to the table of pronunciations.
#[derive(Debug, PartialEq, Eq)]
pub enum PhonemeDifference {
    Skip,
    Delete(String),
    Upsert(String, Phones),
}

/// A compiled rule: a rewrite of words, or a change of pronunciations.
#[derive(Debug, PartialEq, Eq)]
pub enum Rule {
    SoundRule { name: String, regex: String, replacement: Option<String> },
    PhonemeRule { name: String, phoneme_differences: Vec<PhonemeDifference> },
}

/// A `ConditionType` as plain data.
pub enum ConditionTypeView {
    Empty,
    BeginningWord,
    EndWord,
    FollowedBy(Seq<char>),
    Between(Seq<char>, Seq<char>),
}

/// A `Condition` as plain data.
pub enum ConditionView {
    Always,
    Single(ConditionTypeView),
    Not(ConditionTypeView),
    Binary { operand: ConditionOperand, left: Box<ConditionView>, right: Box<ConditionView> },
}

/// A `PhonemeDifference` as plain data.
pub enum PhonemeDifferenceView {
    Skip,
    Delete(Seq<char>),
    Upsert(Seq<char>, Seq<Phone>),
}

/// A `Rule` as plain data.
pub enum RuleView {
    SoundRule { name: Seq<char>, regex: Seq<char>, replacement: Option<Seq<char>> },
    PhonemeRule { name: Seq<char>, phoneme_differences: Seq<PhonemeDifferenceView> },
}

/// One pronunciation as plain data.
pub type RealizationView = (Seq<Phone>, ConditionView);

/// A letter with its pronunciations as plain data.
pub type PhonemeView = (Seq<char>, Seq<RealizationView>);

/// Classes as plain data.
pub type ClassesView = Seq<(Seq<char>, Seq<Seq<char>>)>;

impl DeepView for Phone {
    type V = Phone;

    open spec fn deep_view(&self) -> Phone {
        *self
    }
}

impl DeepView for ConditionType {
    type V = ConditionTypeView;

    open spec fn deep_view(&self) -> ConditionTypeView {
        match self {
            ConditionType::Empty => ConditionTypeView::Empty,
            ConditionType::BeginningWord => ConditionTypeView::BeginningWord,
            ConditionType::EndWord => ConditionTypeView::EndWord,
            ConditionType::FollowedBy(pattern) => ConditionTypeView::FollowedBy(pattern@),
            ConditionType::Between(before, after) => ConditionTypeView::Between(before@, after@),
        }
    }
}

/// A condition as plain data.
pub open spec fn condition_view(condition: Condition) -> ConditionView
    decreases condition,
{
    match condition {
        Condition::Always => ConditionView::Always,
        Condition::Single(test) => ConditionView::Single(test.deep_view()),
        Condition::Not(test) => ConditionView::Not(test.deep_view()),
        Condition::Binary { operand, left, right } => ConditionView::Binary {
            operand,
            left: Box::new(condition_view(*left)),
            right: Box::new(condition_view(*right)),
        },
    }
}

impl DeepView for Condition {
    type V = ConditionView;

    open spec fn deep_view(&self) -> ConditionView {
        condition_view(*self)
    }
}

impl DeepView for PhonemeDifference {
    type V = PhonemeDifferenceView;

    open spec fn deep_view(&self) -> PhonemeDifferenceView {
        match self {
            PhonemeDifference::Skip => PhonemeDifferenceView::Skip,
            PhonemeDifference::Delete(letter) => PhonemeDifferenceView::Delete(letter@),
            PhonemeDifference::Upsert(letter, phones) => PhonemeDifferenceView::Upsert(
                letter@,
                phones@,
            ),
        }
    }
}

impl DeepView for Rule {
    type V = RuleView;

    open spec fn deep_view(&self) -> RuleView {
        match self {
            Rule::SoundRule { name, regex, replacement } => RuleView::SoundRule {
                name: name@,
                regex: regex@,
                replacement: replacement.deep_view(),
            },
            Rule::PhonemeRule { name, phoneme_differences } => RuleView::PhonemeRule {
                name: name@,
                phoneme_differences: phoneme_differences.deep_view(),
            },
        }
    }
}

impl Clone for ConditionType {
    fn clone(&self) -> (copy: Self)
        ensures
            copy.deep_view() == self.deep_view(),
    {
        match self {
            ConditionType::Empty => ConditionType::Empty,
            ConditionType::BeginningWord => ConditionType::BeginningWord,
            ConditionType::EndWord => ConditionType::EndWord,
            ConditionType::FollowedBy(pattern) => ConditionType::FollowedBy(pattern.clone()),
            ConditionType::Between(before, after) => ConditionType::Between(
                before.clone(),
                after.clone(),
            ),
        }
    }
}

impl Clone for Condition {
    fn clone(&self) -> (copy: Self)
        ensures
            copy.deep_view() == self.deep_view(),
        decreases self,
    {
        match self {
            Condition::Always => Condition::Always,
            Condition::Single(test) => Condition::Single(test.clone()),
            Condition::Not(test) => Condition::Not(test.clone()),
            Condition::Binary { operand, left, right } => Condition::Binary {
                operand: *operand,
                left: Box::new((&**left).clone()),
                right: Box::new((&**right).clone()),
            },
        }
    }
}

impl Clone for PhonemeDifference {
    fn clone(&self) -> (copy: Self)
        ensures
            copy.deep_view() == self.deep_view(),
    {
        match self {
            PhonemeDifference::Skip => PhonemeDifference::Skip,
            PhonemeDifference::Delete(letter) => PhonemeDifference::Delete(letter.clone()),
            PhonemeDifference::Upsert(letter, phones) => PhonemeDifference::Upsert(
                letter.clone(),
                clone_phones(phones),
            ),
        }
    }
}

impl Clone for Rule {
    fn clone(&self) -> (copy: Self)
        ensures
            copy.deep_view() == self.deep_view(),
    {
        match self {
            Rule::SoundRule { name, regex, replacement } => Rule::SoundRule {
                name: name.clone(),
                regex: regex.clone(),
                replacement: match replacement {
                    Some(text) => Some(text.clone()),
                    None => None,
                },
            },
            Rule::PhonemeRule { name, phoneme_differences } => {
                let mut copies: Vec<PhonemeDifference> = Vec::new();
                let mut i: usize = 0;
                while i < phoneme_differences.len()
                    invariant
                        i <= phoneme_differences.len(),
                        copies.len() == i,
                        forall|j: int|
                            0 <= j < i ==> (#[trigger] copies[j]).deep_view()
                                == phoneme_differences[j].deep_view(),
                    decreases phoneme_differences.len() - i,
                {
                    copies.push(phoneme_differences[i].clone());
                    i += 1;
                }
                assert(copies.deep_view() =~= phoneme_differences.deep_view());
                Rule::PhonemeRule { name: name.clone(), phoneme_differences: copies }
            },
        }
    }
}

/// Phones are plain data already: a list of them is its own deep view.
pub proof fn lemma_phones_view(phones: Phones)
    ensures
        phones.deep_view() == phones@,
{
    assert(phones.deep_view() =~= phones@);
}

impl ConditionType {
    /// Whether two tests are the same test.
    pub fn same(&self, other: &ConditionType) -> (same: bool)
        ensures
            same == (self.deep_view() == other.deep_view()),
    {
        match (self, other) {
            (ConditionType::Empty, ConditionType::Empty) => true,
            (ConditionType::BeginningWord, ConditionType::BeginningWord) => true,
            (ConditionType::EndWord, ConditionType::EndWord) => true,
            (ConditionType::FollowedBy(one), ConditionType::FollowedBy(two)) => *one == *two,
            (ConditionType::Between(a, b), ConditionType::Between(c, d)) => *a == *c && *b == *d,
            _ => false,
        }
    }
}

impl Condition {
    /// Whether two conditions are the same condition.
    pub fn same(&self, other: &Condition) -> (same: bool)
        ensures
            same == (self.deep_view() == other.deep_view()),
        decreases self,
    {
        match (self, other) {
            (Condition::Always, Condition::Always) => true,
            (Condition::Single(one), Condition::Single(two)) => one.same(two),
            (Condition::Not(one), Condition::Not(two)) => one.same(two),
            (
                Condition::Binary { operand: op, left: l, right: r },
                Condition::Binary { operand: other_op, left: other_l, right: other_r },
            ) => {
                let operands = match (op, other_op) {
                    (ConditionOperand::And, ConditionOperand::And) => true,
                    (ConditionOperand::Or, ConditionOperand::Or) => true,
                    _ => false,
                };
                let lefts = (&**l).same(&**other_l);
                let rights = (&**r).same(&**other_r);
                operands && lefts && rights
            },
            _ => false,
        }
    }
}

/// A copy of a list of phones.
pub fn clone_phones(phones: &Phones) -> (copy: Phones)
    ensures
        copy@ == phones@,
{
    let mut copy: Phones = Vec::new();
    let mut i: usize = 0;
    while i < phones.len()
        invariant
            i <= phones.len(),
            copy@ == phones@.take(i as int),
        decreases phones.len() - i,
    {
        copy.push(phones[i]);
        i += 1;
    }
    copy
}

impl RuleView {
    /// The name under which the rule appears in a history.
    pub open spec fn name(self) -> Seq<char> {
        match self {
            RuleView::SoundRule { name, .. } => name,
            RuleView::PhonemeRule { name, .. } => name,
        }
    }
}

impl MonoSyllableRepartition {
    /// The share of words with a single syllable, in hundredths.
    pub open spec fn percentage(self) -> int {
        match self {
            MonoSyllableRepartition::Always => 100,
            MonoSyllableRepartition::Mostly => 85,
            MonoSyllableRepartition::Frequent => 50,
            MonoSyllableRepartition::LessFrequent => 20,
            MonoSyllableRepartition::Rare => 7,
            MonoSyllableRepartition::Never => 0,
        }
    }

    /// The share of words with a single syllable, in hundredths.
    pub fn into_percentage(self) -> (hundredths: u32)
        ensures
            hundredths == self.percentage(),
    {
        match self {
            MonoSyllableRepartition::Always => 100,
            MonoSyllableRepartition::Mostly => 85,
            MonoSyllableRepartition::Frequent => 50,
            MonoSyllableRepartition::LessFrequent => 20,
            MonoSyllableRepartition::Rare => 7,
            MonoSyllableRepartition::Never => 0,
        }
    }
}

} // verus!
