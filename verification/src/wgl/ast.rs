//! What a description says, before any of it is interpreted.
use crate::sound_system::types::{ConditionOperand, ConditionTypeView, ConditionView};
use vstd::prelude::*;
use vstd::string::StringExecFns;

verus! {

/// A whole description.
#[derive(Debug, PartialEq, Eq)]
pub struct Ast {
    pub imports: Vec<String>,
    pub letters: Vec<Letter>,
    pub classes: Vec<(String, Vec<String>)>,
    pub syllables: Vec<Vec<String>>,
    pub rules: Vec<TransformationRule>,
    pub phonemes: Vec<(String, Vec<Phoneme>)>,
}

/// A declared letter and its weight; zero stands for a weight left out.
#[derive(Debug, PartialEq, Eq)]
pub struct Letter {
    pub letter: String,
    pub frequency: u64,
}

/// A pronunciation of a letter, as written.
#[derive(Debug, PartialEq, Eq)]
pub struct Phoneme {
    pub notation: String,
    pub condition: Condition,
}

/// When a pronunciation applies, as written.
#[derive(Debug, PartialEq, Eq)]
pub enum Condition {
    Always,
    Not(ConditionType),
    And(Box<Condition>, Box<Condition>),
    Or(Box<Condition>, Box<Condition>),
    Single(ConditionType),
}

/// A single test on the place of a letter in a word, as written.
#[derive(Debug, PartialEq, Eq)]
pub enum ConditionType {
    Empty,
    BeginningWord,
    EndWord,
    FollowedBy(String),
    Between(String, String),
}

/// A rule, as written.
#[derive(Debug, PartialEq, Eq)]
pub enum TransformationRule {
    SoundRule { environment: Environment, input: String, output: Option<String> },
    PhonemeRule { input: String, output: Option<String> },
}

/// Where a sound rule applies.
#[derive(Debug, PartialEq, Eq)]
pub enum Environment {
    All,
    Match(String),
}

/// An `Environment` as plain data.
pub enum EnvironmentView {
    All,
    Match(Seq<char>),
}

/// A `TransformationRule` as plain data.
pub enum TransformationRuleView {
    SoundRule { environment: EnvironmentView, input: Seq<char>, output: Option<Seq<char>> },
    PhonemeRule { input: Seq<char>, output: Option<Seq<char>> },
}

/// A description as plain data. Conditions are shown as what they mean.
pub struct AstView {
    pub imports: Seq<Seq<char>>,
    pub letters: Seq<(Seq<char>, u64)>,
    pub classes: Seq<(Seq<char>, Seq<Seq<char>>)>,
    pub syllables: Seq<Seq<Seq<char>>>,
    pub rules: Seq<TransformationRuleView>,
    pub phonemes: Seq<(Seq<char>, Seq<(Seq<char>, ConditionView)>)>,
}

impl DeepView for Letter {
    type V = (Seq<char>, u64);

    open spec fn deep_view(&self) -> (Seq<char>, u64) {
        (self.letter@, self.frequency)
    }
}

impl DeepView for ConditionType {
    type V = ConditionTypeView;

    open spec fn deep_view(&self) -> ConditionTypeView {
        match self {
            ConditionType::Empty => ConditionTypeView::Empty,
            ConditionType::BeginningWord => ConditionTypeView::BeginningWord,
            ConditionType::EndWord => ConditionTypeView::EndWord,
            ConditionType::FollowedBy(pattern) => ConditionTypeView::FollowedBy(pattern@),
            ConditionType::Between(before, after) => ConditionTypeView::Between(before@, after@),
        }
    }
}

/// What a written condition means.
pub open spec fn meaning(condition: Condition) -> ConditionView
    decreases condition,
{
    match condition {
        Condition::Always => ConditionView::Always,
        Condition::Single(test) => ConditionView::Single(test.deep_view()),
        Condition::Not(test) => ConditionView::Not(test.deep_view()),
        Condition::And(left, right) => ConditionView::Binary {
            operand: ConditionOperand::And,
            left: Box::new(meaning(*left)),
            right: Box::new(meaning(*right)),
        },
        Condition::Or(left, right) => ConditionView::Binary {
            operand: ConditionOperand::Or,
            left: Box::new(meaning(*left)),
            right: Box::new(meaning(*right)),
        },
    }
}

impl DeepView for Condition {
    type V = ConditionView;

    open spec fn deep_view(&self) -> ConditionView {
        meaning(*self)
    }
}

impl DeepView for Phoneme {
    type V = (Seq<char>, ConditionView);

    open spec fn deep_view(&self) -> (Seq<char>, ConditionView) {
        (self.notation@, self.condition.deep_view())
    }
}

impl DeepView for Ast {
    type V = AstView;

    open spec fn deep_view(&self) -> AstView {
        AstView {
            imports: self.imports.deep_view(),
            letters: self.letters.deep_view(),
            classes: self.classes.deep_view(),
            syllables: self.syllables.deep_view(),
            rules: self.rules.deep_view(),
            phonemes: self.phonemes.deep_view(),
        }
    }
}

impl DeepView for Environment {
    type V = EnvironmentView;

    open spec fn deep_view(&self) -> EnvironmentView {
        match self {
            Environment::All => EnvironmentView::All,
            Environment::Match(pattern) => EnvironmentView::Match(pattern@),
        }
    }
}

impl DeepView for TransformationRule {
    type V = TransformationRuleView;

    open spec fn deep_view(&self) -> TransformationRuleView {
        match self {
            TransformationRule::SoundRule { environment, input, output } => {
                TransformationRuleView::SoundRule {
                    environment: environment.deep_view(),
                    input: input@,
                    output: output.deep_view(),
                }
            },
            TransformationRule::PhonemeRule { input, output } => {
                TransformationRuleView::PhonemeRule { input: input@, output: output.deep_view() }
            },
        }
    }
}

impl Clone for ConditionType {
    fn clone(&self) -> (copy: Self)
        ensures
            copy.deep_view() == self.deep_view(),
    {
        match self {
            ConditionType::Empty => ConditionType::Empty,
            ConditionType::BeginningWord => ConditionType::BeginningWord,
            ConditionType::EndWord => ConditionType::EndWord,
            ConditionType::FollowedBy(pattern) => ConditionType::FollowedBy(pattern.clone()),
            ConditionType::Between(before, after) => ConditionType::Between(
                before.clone(),
                after.clone(),
            ),
        }
    }
}

impl Clone for Condition {
    fn clone(&self) -> (copy: Self)
        ensures
            copy.deep_view() == self.deep_view(),
        decreases self,
    {
        match self {
            Condition::Always => Condition::Always,
            Condition::Single(test) => Condition::Single(test.clone()),
            Condition::Not(test) => Condition::Not(test.clone()),
            Condition::And(left, right) => Condition::And(
                Box::new((&**left).clone()),
                Box::new((&**right).clone()),
            ),
            Condition::Or(left, right) => Condition::Or(
                Box::new((&**left).clone()),
                Box::new((&**right).clone()),
            ),
        }
    }
}

impl Clone for Letter {
    fn clone(&self) -> (copy: Self)
        ensures
            copy.deep_view() == self.deep_view(),
    {
        Letter { letter: self.letter.clone(), frequency: self.frequency }
    }
}

impl Clone for Phoneme {
    fn clone(&self) -> (copy: Self)
        ensures
            copy.deep_view() == self.deep_view(),
    {
        Phoneme { notation: self.notation.clone(), condition: self.condition.clone() }
    }
}

impl Clone for Environment {
    fn clone(&self) -> (copy: Self)
        ensures
            copy.deep_view() == self.deep_view(),
    {
        match self {
            Environment::All => Environment::All,
            Environment::Match(pattern) => Environment::Match(pattern.clone()),
        }
    }
}

impl Clone for TransformationRule {
    fn clone(&self) -> (copy: Self)
        ensures
            copy.deep_view() == self.deep_view(),
    {
        match self {
            TransformationRule::SoundRule { environment, input, .. } => {
                TransformationRule::SoundRule {
                    environment: environment.clone(),
                    input: input.clone(),
                    output: self.output(),
                }
            },
            TransformationRule::PhonemeRule { input, .. } => TransformationRule::PhonemeRule {
                input: input.clone(),
                output: self.output(),
            },
        }
    }
}

impl Default for Ast {
    fn default() -> (empty: Self)
        ensures
            empty.imports@.len() == 0,
            empty.letters@.len() == 0,
            empty.classes@.len() == 0,
            empty.syllables@.len() == 0,
            empty.rules@.len() == 0,
            empty.phonemes@.len() == 0,
    {
        Ast {
            imports: Vec::new(),
            letters: Vec::new(),
            classes: Vec::new(),
            syllables: Vec::new(),
            rules: Vec::new(),
            phonemes: Vec::new(),
        }
    }
}

impl EnvironmentView {
    /// The environment as it is written: `_` where the rule applies
    /// everywhere.
    pub open spec fn text(self) -> Seq<char> {
        match self {
            EnvironmentView::All => seq!['_'],
            EnvironmentView::Match(pattern) => pattern,
        }
    }
}

impl TransformationRuleView {
    pub open spec fn input(self) -> Seq<char> {
        match self {
            TransformationRuleView::SoundRule { input, .. } => input,
            TransformationRuleView::PhonemeRule { input, .. } => input,
        }
    }

    pub open spec fn output(self) -> Option<Seq<char>> {
        match self {
            TransformationRuleView::SoundRule { output, .. } => output,
            TransformationRuleView::PhonemeRule { output, .. } => output,
        }
    }

    /// The arrow of the rule: `->` rewrites words, `~>` changes
    /// pronunciations.
    pub open spec fn arrow(self) -> Seq<char> {
        match self {
            TransformationRuleView::SoundRule { .. } => seq!['-', '>'],
            TransformationRuleView::PhonemeRule { .. } => seq!['~', '>'],
        }
    }

    /// The rule as it is written: the environment and ` : ` where there is
    /// one, then the input, the arrow and the output, a space between each.
    pub open spec fn text(self) -> Seq<char> {
        let before = match self {
            TransformationRuleView::SoundRule { environment, .. } => environment.text() + seq![
                ' ',
                ':',
                ' ',
            ],
            TransformationRuleView::PhonemeRule { .. } => Seq::empty(),
        };
        let after = match self.output() {
            Some(output) => output,
            None => Seq::empty(),
        };
        before + self.input() + seq![' '] + self.arrow() + seq![' '] + after
    }
}

impl Environment {
    pub fn to_string(&self) -> (text: String)
        ensures
            text@ == self.deep_view().text(),
    {
        match self {
            Environment::All => {
                proof {
                    reveal_strlit("_");
                }
                let text = String::from_str("_");
                assert(text@ =~= seq!['_']);
                text
            },
            Environment::Match(pattern) => pattern.clone(),
        }
    }
}

impl TransformationRule {
    pub fn environment(&self) -> (environment: Option<&Environment>)
        ensures
            match self {
                TransformationRule::SoundRule { environment: e, .. } => environment == Some(e),
                TransformationRule::PhonemeRule { .. } => environment is None,
            },
    {
        match self {
            TransformationRule::SoundRule { environment, .. } => Some(environment),
            TransformationRule::PhonemeRule { .. } => None,
        }
    }

    pub fn input(&self) -> (input: String)
        ensures
            input@ == self.deep_view().input(),
    {
        match self {
            TransformationRule::SoundRule { input, .. } => input.clone(),
            TransformationRule::PhonemeRule { input, .. } => input.clone(),
        }
    }

    pub fn output(&self) -> (output: Option<String>)
        ensures
            output.deep_view() == self.deep_view().output(),
    {
        match self {
            TransformationRule::SoundRule { output, .. } => match output {
                Some(text) => Some(text.clone()),
                None => None,
            },
            TransformationRule::PhonemeRule { output, .. } => match output {
                Some(text) => Some(text.clone()),
                None => None,
            },
        }
    }

    /// The rule as it is written; this is the name a compiled rule goes by.
    pub fn to_string(&self) -> (text: String)
        ensures
            text@ == self.deep_view().text(),
    {
        proof {
            reveal_strlit(" : ");
            reveal_strlit(" ");
            reveal_strlit("->");
            reveal_strlit("~>");
        }
        let mut text = String::new();
        match self {
            TransformationRule::SoundRule { environment, .. } => {
                let written = environment.to_string();
                text.append(written.as_str());
                text.append(" : ");
                assert(" : "@ =~= seq![' ', ':', ' ']);
            },
            TransformationRule::PhonemeRule { .. } => {},
        }
        let input = self.input();
        text.append(input.as_str());
        text.append(" ");
        assert(" "@ =~= seq![' ']);
        match self {
            TransformationRule::SoundRule { .. } => {
                text.append("->");
                assert("->"@ =~= seq!['-', '>']);
            },
            TransformationRule::PhonemeRule { .. } => {
                text.append("~>");
                assert("~>"@ =~= seq!['~', '>']);
            },
        }
        text.append(" ");
        match self.output() {
            Some(output) => {
                text.append(output.as_str());
            },
            None => {},
        }
        assert(text@ =~= self.deep_view().text());
        text
    }
}

} // verus!
