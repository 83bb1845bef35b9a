//! Reading a description.
//!
//! A description is read line by line. A line that begins with the name of
//! a section and a colon opens that section; what follows on the line and
//! on the lines after it belongs to the section. A line with an equals sign
//! declares a class. Blank lines count for nothing.
//!
//! ```text
//! letters: a, e:2.5, p, t, th
//! V = a e
//! syllables: CV CVC?
//! phonemes:
//!   th /θ/
//!   e /ɛ/ NOT at the end of word AND followed by "p"
//! rules:
//!   V_V: S -> Z
//!   Vn ~> Ṽ
//! ```
use super::ast::{
    Ast, AstView, Condition, ConditionType, Environment, EnvironmentView, Letter, Phoneme,
    TransformationRule, TransformationRuleView,
};
use super::scan::{
    find, find_from, is_word, part, replace, replaced, split_lines, split_words, trim, trimmed,
    words,
};
use crate::sound_system::types::{ConditionOperand, ConditionTypeView, ConditionView};
use crate::text::{chars_of, lemma_chars_view, string_of};
use vstd::prelude::*;

verus! {

/// What was looked for where a description could not be read.
#[derive(Debug, PartialEq, Eq, Structural, Clone, Copy)]
pub enum Expected {
    Section,
    ClassName,
    Letter,
    Number,
    Slot,
    Notation,
    Condition,
    Operator,
    Arrow,
    Environment,
    Input,
}

/// Why a description could not be read: the line, counted from one, and
/// what was looked for on it.
#[derive(Debug, PartialEq, Eq, Structural, Clone, Copy)]
pub struct ParseError {
    pub line: usize,
    pub expected: Expected,
}

/// The section that a line belongs to.
#[derive(Debug, PartialEq, Eq, Structural, Clone, Copy)]
pub enum Section {
    Outside,
    Import,
    Letters,
    Syllables,
    Phonemes,
    Rules,
}

/// The value of a digit.
pub open spec fn digit(c: char) -> Option<u64> {
    if '0' <= c <= '9' {
        Some((c as u64 - '0' as u64) as u64)
    } else {
        None
    }
}

/// The number that the first `upto` characters spell in digits, if they are
/// all digits and the number fits 64 bits at every digit.
pub open spec fn digits_value(text: Seq<char>, upto: int) -> Option<u64>
    decreases upto,
{
    if upto <= 0 || upto > text.len() {
        Some(0)
    } else {
        match (digits_value(text, upto - 1), digit(text[upto - 1])) {
            (Some(before), Some(last)) => if before * 10 + last <= u64::MAX {
                Some((before * 10 + last) as u64)
            } else {
                None
            },
            _ => None,
        }
    }
}

/// The digits behind a decimal point made six, by leaving out what is too
/// many and filling up with zeros.
pub open spec fn six_digits(fraction: Seq<char>) -> Seq<char> {
    Seq::new(6, |i: int| if i < fraction.len() {
        fraction[i]
    } else {
        '0'
    })
}

/// The weight that a text spells, in millionths: digits, and behind a
/// decimal point more digits, of which six count. There is none if the text
/// has other characters, no digit before the point, or spells too much for
/// 64 bits.
pub open spec fn weight_of(text: Seq<char>) -> Option<u64> {
    let point = find_from(text, '.', 0);
    let whole = text.subrange(0, point);
    let fraction = if point < text.len() {
        text.subrange(point + 1, text.len() as int)
    } else {
        Seq::empty()
    };
    if whole.len() == 0 || digits_value(fraction, fraction.len() as int) is None {
        None
    } else {
        digits_value(whole + six_digits(fraction), (whole.len() + 6) as int)
    }
}

/// The letter that a word of the letters section declares: the letter
/// itself, or the letter, a colon and its weight.
pub open spec fn letter_of(word: Seq<char>) -> Result<(Seq<char>, u64), Expected> {
    let colon = find_from(word, ':', 0);
    if colon == 0 {
        Err(Expected::Letter)
    } else if colon >= word.len() {
        Ok((word, 0))
    } else {
        match weight_of(word.subrange(colon + 1, word.len() as int)) {
            Some(weight) => Ok((word.subrange(0, colon), weight)),
            None => Err(Expected::Number),
        }
    }
}

/// The letters that the first `upto` words declare.
pub open spec fn letters_of(words: Seq<Seq<char>>, upto: int) -> Result<
    Seq<(Seq<char>, u64)>,
    Expected,
>
    decreases upto,
{
    if upto <= 0 || upto > words.len() {
        Ok(Seq::empty())
    } else {
        match (letters_of(words, upto - 1), letter_of(words[upto - 1])) {
            (Ok(before), Ok(letter)) => Ok(before.push(letter)),
            (Err(e), _) => Err(e),
            (_, Err(e)) => Err(e),
        }
    }
}

/// The slots of a syllable shape from the place `from` on: each character
/// names a class, and a `?` behind it makes the slot optional. A `?` that
/// follows no name is an error.
pub open spec fn slots_from(shape: Seq<char>, from: int) -> Option<Seq<Seq<char>>>
    decreases shape.len() - from,
{
    if from < 0 || from >= shape.len() {
        Some(Seq::empty())
    } else if shape[from] == '?' {
        None
    } else if from + 1 < shape.len() && shape[from + 1] == '?' {
        match slots_from(shape, from + 2) {
            Some(rest) => Some(seq![seq![shape[from], '?']] + rest),
            None => None,
        }
    } else {
        match slots_from(shape, from + 1) {
            Some(rest) => Some(seq![seq![shape[from]]] + rest),
            None => None,
        }
    }
}

/// The syllable shapes that the first `upto` words spell.
pub open spec fn shapes_of(words: Seq<Seq<char>>, upto: int) -> Option<Seq<Seq<Seq<char>>>>
    decreases upto,
{
    if upto <= 0 || upto > words.len() {
        Some(Seq::empty())
    } else {
        match (shapes_of(words, upto - 1), slots_from(words[upto - 1], 0)) {
            (Some(before), Some(shape)) => Some(before.push(shape)),
            _ => None,
        }
    }
}

/// The first place at or after `from` at which an arrow, `->` or `~>`,
/// begins, or the length of the line.
pub open spec fn arrow_from(line: Seq<char>, from: int) -> int
    decreases line.len() - from,
{
    if from < 0 || from + 1 >= line.len() {
        line.len() as int
    } else if (line[from] == '-' || line[from] == '~') && line[from + 1] == '>' {
        from
    } else {
        arrow_from(line, from + 1)
    }
}

/// What stands behind the arrow: nothing counts as no output.
pub open spec fn output_of(text: Seq<char>) -> Option<Seq<char>> {
    if trimmed(text).len() == 0 {
        None
    } else {
        Some(trimmed(text))
    }
}

/// The rule that a line of the rules section spells. Before the arrow
/// stands the input, and before that, for a sound rule, the environment and
/// a colon; a sound rule without an environment applies everywhere, as does
/// one with the environment `_`.
pub open spec fn rule_of(line: Seq<char>) -> Result<TransformationRuleView, Expected> {
    let arrow = arrow_from(line, 0);
    if arrow >= line.len() {
        Err(Expected::Arrow)
    } else {
        let left = line.subrange(0, arrow);
        let output = output_of(line.subrange(arrow + 2, line.len() as int));
        if line[arrow] == '~' {
            if trimmed(left).len() == 0 {
                Err(Expected::Input)
            } else {
                Ok(TransformationRuleView::PhonemeRule { input: trimmed(left), output })
            }
        } else {
            let colon = find_from(left, ':', 0);
            let input = if colon < left.len() {
                trimmed(left.subrange(colon + 1, left.len() as int))
            } else {
                trimmed(left)
            };
            let written = trimmed(left.subrange(0, colon));
            if colon < left.len() && written.len() == 0 {
                Err(Expected::Environment)
            } else if input.len() == 0 {
                Err(Expected::Input)
            } else if colon >= left.len() || written == seq!['_'] {
                Ok(
                    TransformationRuleView::SoundRule {
                        environment: EnvironmentView::All,
                        input,
                        output,
                    },
                )
            } else {
                Ok(
                    TransformationRuleView::SoundRule {
                        environment: EnvironmentView::Match(written),
                        input,
                        output,
                    },
                )
            }
        }
    }
}

fn read_digits(text: &Vec<char>) -> (value: Option<u64>)
    ensures
        value == digits_value(text@, text.len() as int),
{
    let mut value: u64 = 0;
    let mut i: usize = 0;
    while i < text.len()
        invariant
            i <= text.len(),
            digits_value(text@, i as int) == Some(value),
        decreases text.len() - i,
    {
        let c = text[i];
        if c < '0' || c > '9' {
            proof {
                lemma_digits_fail(text@, i + 1, text.len() as int);
            }
            return None;
        }
        let last = (c as u64) - ('0' as u64);
        if value > (u64::MAX - last) / 10 {
            proof {
                lemma_digits_fail(text@, i + 1, text.len() as int);
            }
            return None;
        }
        value = value * 10 + last;
        i += 1;
    }
    Some(value)
}

/// Once the digits fail to spell a number, more characters do not mend it.
pub proof fn lemma_digits_fail(text: Seq<char>, failed: int, upto: int)
    requires
        0 <= failed <= upto <= text.len(),
        digits_value(text, failed) is None,
    ensures
        digits_value(text, upto) is None,
    decreases upto - failed,
{
    if failed < upto {
        lemma_digits_fail(text, failed, upto - 1);
    }
}

fn read_weight(text: &Vec<char>) -> (weight: Option<u64>)
    ensures
        weight == weight_of(text@),
{
    let point = find(text, '.', 0);
    let whole = part(text, 0, point);
    let fraction = if point < text.len() {
        part(text, point + 1, text.len())
    } else {
        Vec::new()
    };
    if whole.len() == 0 || read_digits(&fraction).is_none() {
        return None;
    }
    let mut all = whole;
    let ghost before = all@;
    let mut i: usize = 0;
    while i < 6
        invariant
            i <= 6,
            all@ == before + six_digits(fraction@).take(i as int),
        decreases 6 - i,
    {
        if i < fraction.len() {
            all.push(fraction[i]);
        } else {
            all.push('0');
        }
        assert(all@ =~= before + six_digits(fraction@).take(i + 1));
        i += 1;
    }
    assert(six_digits(fraction@).take(6) =~= six_digits(fraction@));
    read_digits(&all)
}

fn read_letter(word: &Vec<char>) -> (letter: Result<Letter, Expected>)
    ensures
        match letter {
            Ok(l) => letter_of(word@) == Ok::<(Seq<char>, u64), Expected>(l.deep_view()),
            Err(e) => letter_of(word@) == Err::<(Seq<char>, u64), Expected>(e),
        },
{
    let colon = find(word, ':', 0);
    if colon == 0 {
        Err(Expected::Letter)
    } else if colon >= word.len() {
        Ok(Letter { letter: string_of(word), frequency: 0 })
    } else {
        match read_weight(&part(word, colon + 1, word.len())) {
            Some(weight) => Ok(
                Letter { letter: string_of(&part(word, 0, colon)), frequency: weight },
            ),
            None => Err(Expected::Number),
        }
    }
}

fn read_letters(words: &Vec<Vec<char>>) -> (letters: Result<Vec<Letter>, Expected>)
    ensures
        match letters {
            Ok(l) => letters_of(words.deep_view(), words.len() as int) == Ok::<
                Seq<(Seq<char>, u64)>,
                Expected,
            >(l.deep_view()),
            Err(e) => letters_of(words.deep_view(), words.len() as int) == Err::<
                Seq<(Seq<char>, u64)>,
                Expected,
            >(e),
        },
{
    let ghost wv = words.deep_view();
    let mut letters: Vec<Letter> = Vec::new();
    let mut i: usize = 0;
    assert(letters.deep_view() =~= Seq::empty());
    while i < words.len()
        invariant
            i <= words.len(),
            wv == words.deep_view(),
            letters_of(wv, i as int) == Ok::<Seq<(Seq<char>, u64)>, Expected>(letters.deep_view()),
        decreases words.len() - i,
    {
        assert(wv[i as int] == words[i as int]@);
        match read_letter(&words[i]) {
            Ok(letter) => {
                let ghost before = letters.deep_view();
                let ghost added = letter.deep_view();
                letters.push(letter);
                assert(letters.deep_view() =~= before.push(added));
            },
            Err(e) => {
                proof {
                    lemma_letters_fail(wv, i + 1, words.len() as int);
                }
                return Err(e);
            },
        }
        i += 1;
    }
    Ok(letters)
}

/// Once a word fails to declare a letter, the first failure is what is
/// reported, whatever follows.
pub proof fn lemma_letters_fail(words: Seq<Seq<char>>, failed: int, upto: int)
    requires
        0 <= failed <= upto <= words.len(),
        letters_of(words, failed) is Err,
    ensures
        letters_of(words, upto) == letters_of(words, failed),
    decreases upto - failed,
{
    if failed < upto {
        lemma_letters_fail(words, failed, upto - 1);
    }
}

fn read_slots(shape: &Vec<char>) -> (slots: Option<Vec<String>>)
    ensures
        slots.deep_view() == slots_from(shape@, 0),
{
    let mut slots: Vec<String> = Vec::new();
    let mut at: usize = 0;
    assert(slots.deep_view() =~= Seq::empty());
    while at < shape.len()
        invariant
            at <= shape.len(),
            slots_from(shape@, 0) == match slots_from(shape@, at as int) {
                Some(rest) => Some(slots.deep_view() + rest),
                None => None,
            },
        decreases shape.len() - at,
    {
        if shape[at] == '?' {
            return None;
        }
        let ghost before = slots.deep_view();
        let mut slot = String::new();
        slot.push(shape[at]);
        if at + 1 < shape.len() && shape[at + 1] == '?' {
            slot.push('?');
            assert(slot@ =~= seq![shape@[at as int], '?']);
            slots.push(slot);
            assert(slots.deep_view() =~= before.push(seq![shape@[at as int], '?']));
            assert(forall|rest: Seq<Seq<char>>|
                #![trigger slots.deep_view() + rest]
                slots.deep_view() + rest =~= before + (seq![seq![shape@[at as int], '?']] + rest));
            at += 2;
        } else {
            assert(slot@ =~= seq![shape@[at as int]]);
            slots.push(slot);
            assert(slots.deep_view() =~= before.push(seq![shape@[at as int]]));
            assert(forall|rest: Seq<Seq<char>>|
                #![trigger slots.deep_view() + rest]
                slots.deep_view() + rest =~= before + (seq![seq![shape@[at as int]]] + rest));
            at += 1;
        }
    }
    assert(slots.deep_view() + Seq::<Seq<char>>::empty() =~= slots.deep_view());
    Some(slots)
}

fn read_shapes(words: &Vec<Vec<char>>) -> (shapes: Option<Vec<Vec<String>>>)
    ensures
        shapes.deep_view() == shapes_of(words.deep_view(), words.len() as int),
{
    let ghost wv = words.deep_view();
    let mut shapes: Vec<Vec<String>> = Vec::new();
    let mut i: usize = 0;
    assert(shapes.deep_view() =~= Seq::empty());
    while i < words.len()
        invariant
            i <= words.len(),
            wv == words.deep_view(),
            shapes_of(wv, i as int) == Some(shapes.deep_view()),
        decreases words.len() - i,
    {
        assert(wv[i as int] == words[i as int]@);
        match read_slots(&words[i]) {
            Some(shape) => {
                let ghost before = shapes.deep_view();
                let ghost added = shape.deep_view();
                shapes.push(shape);
                assert(shapes.deep_view() =~= before.push(added));
            },
            None => {
                proof {
                    lemma_shapes_fail(wv, i + 1, words.len() as int);
                }
                return None;
            },
        }
        i += 1;
    }
    Some(shapes)
}

/// Once a word fails to spell a shape, more words do not mend it.
pub proof fn lemma_shapes_fail(words: Seq<Seq<char>>, failed: int, upto: int)
    requires
        0 <= failed <= upto <= words.len(),
        shapes_of(words, failed) is None,
    ensures
        shapes_of(words, upto) is None,
    decreases upto - failed,
{
    if failed < upto {
        lemma_shapes_fail(words, failed, upto - 1);
    }
}

fn find_arrow(line: &Vec<char>) -> (at: usize)
    ensures
        at == arrow_from(line@, 0),
        at <= line.len(),
        at < line.len() ==> at + 1 < line.len(),
{
    let mut at: usize = 0;
    while at < line.len() && at + 1 < line.len()
        invariant
            at <= line.len(),
            arrow_from(line@, 0) == arrow_from(line@, at as int),
        decreases line.len() - at,
    {
        if (line[at] == '-' || line[at] == '~') && line[at + 1] == '>' {
            return at;
        }
        at += 1;
    }
    line.len()
}

fn read_output(text: &Vec<char>) -> (output: Option<String>)
    ensures
        output.deep_view() == output_of(text@),
{
    let cut = trim(text);
    if cut.len() == 0 {
        None
    } else {
        Some(string_of(&cut))
    }
}

fn read_rule(line: &Vec<char>) -> (rule: Result<TransformationRule, Expected>)
    ensures
        match rule {
            Ok(r) => rule_of(line@) == Ok::<TransformationRuleView, Expected>(r.deep_view()),
            Err(e) => rule_of(line@) == Err::<TransformationRuleView, Expected>(e),
        },
{
    let arrow = find_arrow(line);
    if arrow >= line.len() {
        return Err(Expected::Arrow);
    }
    let left = part(line, 0, arrow);
    let output = read_output(&part(line, arrow + 2, line.len()));
    if line[arrow] == '~' {
        let input = trim(&left);
        if input.len() == 0 {
            return Err(Expected::Input);
        }
        return Ok(TransformationRule::PhonemeRule { input: string_of(&input), output });
    }
    let colon = find(&left, ':', 0);
    let input = if colon < left.len() {
        trim(&part(&left, colon + 1, left.len()))
    } else {
        trim(&left)
    };
    let written = trim(&part(&left, 0, colon));
    if colon < left.len() && written.len() == 0 {
        Err(Expected::Environment)
    } else if input.len() == 0 {
        Err(Expected::Input)
    } else if colon >= left.len() || (written.len() == 1 && written[0] == '_') {
        assert(written.len() == 1 && written[0] == '_' ==> written@ =~= seq!['_']);
        Ok(
            TransformationRule::SoundRule {
                environment: Environment::All,
                input: string_of(&input),
                output,
            },
        )
    } else {
        Ok(
            TransformationRule::SoundRule {
                environment: Environment::Match(string_of(&written)),
                input: string_of(&input),
                output,
            },
        )
    }
}

/// A word without the quotation marks around it, if it has them.
pub open spec fn unquoted(word: Seq<char>) -> Seq<char> {
    if word.len() >= 2 && word[0] == '"' && word.last() == '"' {
        word.subrange(1, word.len() - 1)
    } else {
        word
    }
}

/// The test that the words spell from the place `at` on, and the place
/// behind it: `at the beginning of word`, `at the end of word`,
/// `followed by` and a pattern, or `between`, a pattern, `and` and another.
pub open spec fn test_at(words: Seq<Seq<char>>, at: int) -> Option<(ConditionTypeView, int)> {
    if at < 0 {
        None
    } else if at + 5 <= words.len() && words[at] == "at"@ && words[at + 1] == "the"@ && words[at
        + 2] == "beginning"@ && words[at + 3] == "of"@ && words[at + 4] == "word"@ {
        Some((ConditionTypeView::BeginningWord, at + 5))
    } else if at + 5 <= words.len() && words[at] == "at"@ && words[at + 1] == "the"@ && words[at
        + 2] == "end"@ && words[at + 3] == "of"@ && words[at + 4] == "word"@ {
        Some((ConditionTypeView::EndWord, at + 5))
    } else if at + 3 <= words.len() && words[at] == "followed"@ && words[at + 1] == "by"@ {
        Some((ConditionTypeView::FollowedBy(unquoted(words[at + 2])), at + 3))
    } else if at + 4 <= words.len() && words[at] == "between"@ && words[at + 2] == "and"@ {
        Some(
            (
                ConditionTypeView::Between(unquoted(words[at + 1]), unquoted(words[at + 3])),
                at + 4,
            ),
        )
    } else {
        None
    }
}

/// Whether a word negates the test behind it.
pub open spec fn is_not(word: Seq<char>) -> bool {
    word == "NOT"@ || word == "not"@
}

/// Whether a word joins two conditions that must both hold.
pub open spec fn is_and(word: Seq<char>) -> bool {
    word == "AND"@ || word == "and"@
}

/// Whether a word joins two conditions of which one must hold.
pub open spec fn is_or(word: Seq<char>) -> bool {
    word == "OR"@ || word == "or"@
}

/// The condition that the words spell from the place `at` on: a test,
/// negated or not, and then nothing more, or `AND` or `OR` and another
/// condition. What stands behind the operator is its right side as a whole.
pub open spec fn condition_at(words: Seq<Seq<char>>, at: int) -> Result<ConditionView, Expected>
    decreases words.len() - at,
{
    if at < 0 || at >= words.len() {
        Err(Expected::Condition)
    } else {
        let start = if is_not(words[at]) {
            at + 1
        } else {
            at
        };
        match test_at(words, start) {
            None => Err(Expected::Condition),
            Some((test, next)) => {
                let first = if is_not(words[at]) {
                    ConditionView::Not(test)
                } else {
                    ConditionView::Single(test)
                };
                if next >= words.len() {
                    Ok(first)
                } else if is_and(words[next]) || is_or(words[next]) {
                    match condition_at(words, next + 1) {
                        Ok(rest) => Ok(
                            ConditionView::Binary {
                                operand: if is_and(words[next]) {
                                    ConditionOperand::And
                                } else {
                                    ConditionOperand::Or
                                },
                                left: Box::new(first),
                                right: Box::new(rest),
                            },
                        ),
                        Err(e) => Err(e),
                    }
                } else {
                    Err(Expected::Operator)
                }
            },
        }
    }
}

/// The pronunciation that the words of a line of the phonemes section
/// spell: the letter, its sounds between slashes, and, if more follows, the
/// condition.
pub open spec fn phoneme_of(words: Seq<Seq<char>>) -> Result<
    (Seq<char>, (Seq<char>, ConditionView)),
    Expected,
> {
    if words.len() < 2 || words[1].len() < 2 || words[1][0] != '/' || words[1].last() != '/' {
        Err(Expected::Notation)
    } else {
        let notation = words[1].subrange(1, words[1].len() - 1);
        if words.len() == 2 {
            Ok((words[0], (notation, ConditionView::Always)))
        } else {
            match condition_at(words, 2) {
                Ok(condition) => Ok((words[0], (notation, condition))),
                Err(e) => Err(e),
            }
        }
    }
}

/// The first place at or after `from` that holds the pronunciations of
/// `letter`, or the number of letters.
pub open spec fn key_from(
    phonemes: Seq<(Seq<char>, Seq<(Seq<char>, ConditionView)>)>,
    letter: Seq<char>,
    from: int,
) -> int
    decreases phonemes.len() - from,
{
    if from < 0 || from >= phonemes.len() {
        phonemes.len() as int
    } else if phonemes[from].0 == letter {
        from
    } else {
        key_from(phonemes, letter, from + 1)
    }
}

/// The pronunciations with one more: with those of the same letter, if
/// there are any, else behind all others.
pub open spec fn grouped(
    phonemes: Seq<(Seq<char>, Seq<(Seq<char>, ConditionView)>)>,
    letter: Seq<char>,
    entry: (Seq<char>, ConditionView),
) -> Seq<(Seq<char>, Seq<(Seq<char>, ConditionView)>)> {
    let at = key_from(phonemes, letter, 0);
    if at < phonemes.len() {
        phonemes.update(at, (letter, phonemes[at].1.push(entry)))
    } else {
        phonemes.push((letter, seq![entry]))
    }
}

/// The section that a name opens.
pub open spec fn section_named(name: Seq<char>) -> Option<Section> {
    if name == "import"@ || name == "imports"@ {
        Some(Section::Import)
    } else if name == "letters"@ {
        Some(Section::Letters)
    } else if name == "syllables"@ {
        Some(Section::Syllables)
    } else if name == "phonemes"@ {
        Some(Section::Phonemes)
    } else if name == "rules"@ {
        Some(Section::Rules)
    } else {
        None
    }
}

/// The section that a line opens and what follows the colon, if the line
/// opens one.
pub open spec fn header_of(line: Seq<char>) -> Option<(Section, Seq<char>)> {
    let colon = find_from(line, ':', 0);
    if colon >= line.len() {
        None
    } else {
        match section_named(trimmed(line.subrange(0, colon))) {
            Some(section) => Some((section, line.subrange(colon + 1, line.len() as int))),
            None => None,
        }
    }
}

/// The description with what a section holds taken out, as a new opening of
/// the section starts it afresh.
pub open spec fn cleared(ast: AstView, section: Section) -> AstView {
    match section {
        Section::Outside => ast,
        Section::Import => AstView { imports: Seq::empty(), ..ast },
        Section::Letters => AstView { letters: Seq::empty(), ..ast },
        Section::Syllables => AstView { syllables: Seq::empty(), ..ast },
        Section::Phonemes => AstView { phonemes: Seq::empty(), ..ast },
        Section::Rules => AstView { rules: Seq::empty(), ..ast },
    }
}

/// The description with the content of one line of a section added. In the
/// letters section commas count as blanks.
pub open spec fn with_content(ast: AstView, section: Section, text: Seq<char>) -> Result<
    AstView,
    Expected,
> {
    if words(text).len() == 0 {
        Ok(ast)
    } else {
        match section {
            Section::Outside => Err(Expected::Section),
            Section::Import => Ok(AstView { imports: ast.imports + words(text), ..ast }),
            Section::Letters => {
                let declared = words(replaced(text, ',', ' '));
                match letters_of(declared, declared.len() as int) {
                    Ok(letters) => Ok(AstView { letters: ast.letters + letters, ..ast }),
                    Err(e) => Err(e),
                }
            },
            Section::Syllables => match shapes_of(words(text), words(text).len() as int) {
                Some(shapes) => Ok(AstView { syllables: ast.syllables + shapes, ..ast }),
                None => Err(Expected::Slot),
            },
            Section::Phonemes => match phoneme_of(words(text)) {
                Ok((letter, entry)) => Ok(
                    AstView { phonemes: grouped(ast.phonemes, letter, entry), ..ast },
                ),
                Err(e) => Err(e),
            },
            Section::Rules => match rule_of(text) {
                Ok(rule) => Ok(AstView { rules: ast.rules.push(rule), ..ast }),
                Err(e) => Err(e),
            },
        }
    }
}

/// The description and the open section after one more line.
pub open spec fn with_line(ast: AstView, section: Section, line: Seq<char>) -> Result<
    (AstView, Section),
    Expected,
> {
    match header_of(line) {
        Some((opened, rest)) => match with_content(cleared(ast, opened), opened, rest) {
            Ok(next) => Ok((next, opened)),
            Err(e) => Err(e),
        },
        None => {
            let equals = find_from(line, '=', 0);
            if equals < line.len() {
                let name = words(line.subrange(0, equals));
                if name.len() != 1 {
                    Err(Expected::ClassName)
                } else {
                    Ok(
                        (
                            AstView {
                                classes: ast.classes.push(
                                    (name[0], words(line.subrange(equals + 1, line.len() as int))),
                                ),
                                ..ast
                            },
                            Section::Outside,
                        ),
                    )
                }
            } else {
                match with_content(ast, section, line) {
                    Ok(next) => Ok((next, section)),
                    Err(e) => Err(e),
                }
            }
        },
    }
}

/// A description with nothing in it.
pub open spec fn nothing() -> AstView {
    AstView {
        imports: Seq::empty(),
        letters: Seq::empty(),
        classes: Seq::empty(),
        syllables: Seq::empty(),
        rules: Seq::empty(),
        phonemes: Seq::empty(),
    }
}

/// The description and the open section after the first `upto` lines, or
/// the first error.
pub open spec fn read_upto(lines: Seq<Seq<char>>, upto: int) -> Result<
    (AstView, Section),
    ParseError,
>
    decreases upto,
{
    if upto <= 0 || upto > lines.len() {
        Ok((nothing(), Section::Outside))
    } else {
        match read_upto(lines, upto - 1) {
            Ok((ast, section)) => match with_line(ast, section, lines[upto - 1]) {
                Ok(next) => Ok(next),
                Err(expected) => Err(ParseError { line: upto as usize, expected }),
            },
            Err(e) => Err(e),
        }
    }
}

/// What a text says as a description, or why it is none.
pub open spec fn parsed(input: Seq<char>) -> Result<AstView, ParseError> {
    match read_upto(super::scan::lines(input), super::scan::lines(input).len() as int) {
        Ok((ast, _)) => Ok(ast),
        Err(e) => Err(e),
    }
}

/// The first error is what is reported, whatever follows.
pub proof fn lemma_read_fails(lines: Seq<Seq<char>>, failed: int, upto: int)
    requires
        0 <= failed <= upto <= lines.len(),
        read_upto(lines, failed) is Err,
    ensures
        read_upto(lines, upto) == read_upto(lines, failed),
    decreases upto - failed,
{
    if failed < upto {
        lemma_read_fails(lines, failed, upto - 1);
    }
}

fn unquote(word: &Vec<char>) -> (text: String)
    ensures
        text@ == unquoted(word@),
{
    if word.len() >= 2 && word[0] == '"' && word[word.len() - 1] == '"' {
        string_of(&part(word, 1, word.len() - 1))
    } else {
        string_of(word)
    }
}

fn read_test(words: &Vec<Vec<char>>, at: usize) -> (found: Option<(ConditionType, usize)>)
    ensures
        match found {
            Some((test, next)) => test_at(words.deep_view(), at as int) == Some(
                (test.deep_view(), next as int),
            ) && at < next <= words.len(),
            None => test_at(words.deep_view(), at as int) is None,
        },
{
    let ghost wv = words.deep_view();
    let n = words.len();
    assert(forall|i: int| 0 <= i < n ==> #[trigger] wv[i] == words[i]@);
    if at < n && n - at >= 5 && is_word(&words[at], "at") && is_word(&words[at + 1], "the")
        && is_word(&words[at + 2], "beginning") && is_word(&words[at + 3], "of") && is_word(
        &words[at + 4],
        "word",
    ) {
        Some((ConditionType::BeginningWord, at + 5))
    } else if at < n && n - at >= 5 && is_word(&words[at], "at") && is_word(
        &words[at + 1],
        "the",
    ) && is_word(&words[at + 2], "end") && is_word(&words[at + 3], "of") && is_word(
        &words[at + 4],
        "word",
    ) {
        Some((ConditionType::EndWord, at + 5))
    } else if at < n && n - at >= 3 && is_word(&words[at], "followed") && is_word(
        &words[at + 1],
        "by",
    ) {
        Some((ConditionType::FollowedBy(unquote(&words[at + 2])), at + 3))
    } else if at < n && n - at >= 4 && is_word(&words[at], "between") && is_word(
        &words[at + 2],
        "and",
    ) {
        Some((ConditionType::Between(unquote(&words[at + 1]), unquote(&words[at + 3])), at + 4))
    } else {
        None
    }
}

fn read_condition(words: &Vec<Vec<char>>, at: usize) -> (found: Result<Condition, Expected>)
    ensures
        match found {
            Ok(condition) => condition_at(words.deep_view(), at as int) == Ok::<
                ConditionView,
                Expected,
            >(condition.deep_view()),
            Err(e) => condition_at(words.deep_view(), at as int) == Err::<ConditionView, Expected>(
                e,
            ),
        },
    decreases words.len() - at,
{
    let ghost wv = words.deep_view();
    if at >= words.len() {
        return Err(Expected::Condition);
    }
    assert(wv[at as int] == words[at as int]@);
    let negated = is_word(&words[at], "NOT") || is_word(&words[at], "not");
    let start = if negated {
        at + 1
    } else {
        at
    };
    match read_test(words, start) {
        None => Err(Expected::Condition),
        Some((test, next)) => {
            let ghost meant = test.deep_view();
            let first = if negated {
                Condition::Not(test)
            } else {
                Condition::Single(test)
            };
            assert(first.deep_view() == if negated {
                ConditionView::Not(meant)
            } else {
                ConditionView::Single(meant)
            });
            if next >= words.len() {
                return Ok(first);
            }
            assert(wv[next as int] == words[next as int]@);
            let and = is_word(&words[next], "AND") || is_word(&words[next], "and");
            let or = is_word(&words[next], "OR") || is_word(&words[next], "or");
            if and || or {
                match read_condition(words, next + 1) {
                    Ok(rest) => if and {
                        Ok(Condition::And(Box::new(first), Box::new(rest)))
                    } else {
                        Ok(Condition::Or(Box::new(first), Box::new(rest)))
                    },
                    Err(e) => Err(e),
                }
            } else {
                Err(Expected::Operator)
            }
        },
    }
}

fn read_phoneme(words: &Vec<Vec<char>>) -> (found: Result<(String, Phoneme), Expected>)
    ensures
        match found {
            Ok(entry) => phoneme_of(words.deep_view()) == Ok::<
                (Seq<char>, (Seq<char>, ConditionView)),
                Expected,
            >(entry.deep_view()),
            Err(e) => phoneme_of(words.deep_view()) == Err::<
                (Seq<char>, (Seq<char>, ConditionView)),
                Expected,
            >(e),
        },
{
    let ghost wv = words.deep_view();
    if words.len() < 2 {
        return Err(Expected::Notation);
    }
    assert(wv[0] == words[0]@);
    assert(wv[1] == words[1]@);
    let written = &words[1];
    if written.len() < 2 || written[0] != '/' || written[written.len() - 1] != '/' {
        return Err(Expected::Notation);
    }
    let notation = string_of(&part(written, 1, written.len() - 1));
    let letter = string_of(&words[0]);
    if words.len() == 2 {
        return Ok((letter, Phoneme { notation, condition: Condition::Always }));
    }
    match read_condition(words, 2) {
        Ok(condition) => Ok((letter, Phoneme { notation, condition })),
        Err(e) => Err(e),
    }
}

fn strings_of(words: &Vec<Vec<char>>) -> (texts: Vec<String>)
    ensures
        texts.deep_view() == words.deep_view(),
{
    let mut texts: Vec<String> = Vec::new();
    let mut i: usize = 0;
    while i < words.len()
        invariant
            i <= words.len(),
            texts.len() == i,
            forall|j: int| 0 <= j < i ==> (#[trigger] texts[j])@ == words[j].deep_view(),
        decreases words.len() - i,
    {
        proof {
            lemma_chars_view(words[i as int]);
        }
        texts.push(string_of(&words[i]));
        i += 1;
    }
    assert(texts.deep_view() =~= words.deep_view());
    texts
}

fn group(phonemes: &mut Vec<(String, Vec<Phoneme>)>, letter: String, entry: Phoneme)
    ensures
        final(phonemes).deep_view() == grouped(
            old(phonemes).deep_view(),
            letter@,
            entry.deep_view(),
        ),
{
    let ghost before = phonemes.deep_view();
    let ghost added = entry.deep_view();
    let mut at: usize = 0;
    while at < phonemes.len()
        invariant
            at <= phonemes.len(),
            before == phonemes.deep_view(),
            before == old(phonemes).deep_view(),
            added == entry.deep_view(),
            key_from(before, letter@, 0) == key_from(before, letter@, at as int),
        decreases phonemes.len() - at,
    {
        assert(before[at as int] == phonemes[at as int].deep_view());
        if phonemes[at].0 == letter {
            let ghost had = phonemes[at as int].1.deep_view();
            let mut list: Vec<Phoneme> = Vec::new();
            std::mem::swap(&mut list, &mut phonemes[at].1);
            list.push(entry);
            assert(list.deep_view() =~= had.push(added));
            phonemes[at] = (letter, list);
            assert(phonemes.deep_view() =~= before.update(at as int, (letter@, had.push(added))));
            return ;
        }
        at += 1;
    }
    let mut list: Vec<Phoneme> = Vec::new();
    list.push(entry);
    assert(list.deep_view() =~= seq![added]);
    phonemes.push((letter, list));
    assert(phonemes.deep_view() =~= before.push((letter@, seq![added])));
}

fn read_section(name: &Vec<char>) -> (section: Option<Section>)
    ensures
        section == section_named(name@),
{
    if is_word(name, "import") || is_word(name, "imports") {
        Some(Section::Import)
    } else if is_word(name, "letters") {
        Some(Section::Letters)
    } else if is_word(name, "syllables") {
        Some(Section::Syllables)
    } else if is_word(name, "phonemes") {
        Some(Section::Phonemes)
    } else if is_word(name, "rules") {
        Some(Section::Rules)
    } else {
        None
    }
}

fn read_header(line: &Vec<char>) -> (header: Option<(Section, Vec<char>)>)
    ensures
        header.deep_view() == header_of(line@),
{
    let colon = find(line, ':', 0);
    if colon >= line.len() {
        return None;
    }
    match read_section(&trim(&part(line, 0, colon))) {
        Some(section) => {
            let rest = part(line, colon + 1, line.len());
            proof {
                lemma_chars_view(rest);
            }
            Some((section, rest))
        },
        None => None,
    }
}

impl DeepView for Section {
    type V = Section;

    open spec fn deep_view(&self) -> Section {
        *self
    }
}

fn clear(ast: &mut Ast, section: Section)
    ensures
        final(ast).deep_view() == cleared(old(ast).deep_view(), section),
{
    match section {
        Section::Outside => {},
        Section::Import => {
            ast.imports = Vec::new();
            assert(ast.imports.deep_view() =~= Seq::empty());
        },
        Section::Letters => {
            ast.letters = Vec::new();
            assert(ast.letters.deep_view() =~= Seq::empty());
        },
        Section::Syllables => {
            ast.syllables = Vec::new();
            assert(ast.syllables.deep_view() =~= Seq::empty());
        },
        Section::Phonemes => {
            ast.phonemes = Vec::new();
            assert(ast.phonemes.deep_view() =~= Seq::empty());
        },
        Section::Rules => {
            ast.rules = Vec::new();
            assert(ast.rules.deep_view() =~= Seq::empty());
        },
    }
}

fn add_content(ast: &mut Ast, section: Section, text: &Vec<char>) -> (done: Result<(), Expected>)
    ensures
        match done {
            Ok(_) => with_content(old(ast).deep_view(), section, text@) == Ok::<AstView, Expected>(
                final(ast).deep_view(),
            ),
            Err(e) => with_content(old(ast).deep_view(), section, text@) == Err::<
                AstView,
                Expected,
            >(e),
        },
{
    let ghost before = ast.deep_view();
    let found = split_words(text);
    if found.len() == 0 {
        return Ok(());
    }
    match section {
        Section::Outside => Err(Expected::Section),
        Section::Import => {
            let mut more = strings_of(&found);
            ast.imports.append(&mut more);
            assert(ast.imports.deep_view() =~= before.imports + words(text@));
            Ok(())
        },
        Section::Letters => {
            let declared = split_words(&replace(text, ',', ' '));
            match read_letters(&declared) {
                Ok(letters) => {
                    let ghost added = letters.deep_view();
                    let mut letters = letters;
                    ast.letters.append(&mut letters);
                    assert(ast.letters.deep_view() =~= before.letters + added);
                    Ok(())
                },
                Err(e) => Err(e),
            }
        },
        Section::Syllables => match read_shapes(&found) {
            Some(shapes) => {
                let ghost added = shapes.deep_view();
                let mut shapes = shapes;
                ast.syllables.append(&mut shapes);
                assert(ast.syllables.deep_view() =~= before.syllables + added);
                Ok(())
            },
            None => Err(Expected::Slot),
        },
        Section::Phonemes => match read_phoneme(&found) {
            Ok((letter, entry)) => {
                group(&mut ast.phonemes, letter, entry);
                Ok(())
            },
            Err(e) => Err(e),
        },
        Section::Rules => match read_rule(text) {
            Ok(rule) => {
                let ghost added = rule.deep_view();
                ast.rules.push(rule);
                assert(ast.rules.deep_view() =~= before.rules.push(added));
                Ok(())
            },
            Err(e) => Err(e),
        },
    }
}

fn add_line(ast: &mut Ast, section: Section, line: &Vec<char>) -> (done: Result<Section, Expected>)
    ensures
        match done {
            Ok(next) => with_line(old(ast).deep_view(), section, line@) == Ok::<
                (AstView, Section),
                Expected,
            >((final(ast).deep_view(), next)),
            Err(e) => with_line(old(ast).deep_view(), section, line@) == Err::<
                (AstView, Section),
                Expected,
            >(e),
        },
{
    let ghost before = ast.deep_view();
    match read_header(line) {
        Some((opened, rest)) => {
            proof {
                lemma_chars_view(rest);
            }
            clear(ast, opened);
            match add_content(ast, opened, &rest) {
                Ok(_) => Ok(opened),
                Err(e) => Err(e),
            }
        },
        None => {
            let equals = find(line, '=', 0);
            if equals < line.len() {
                let name = split_words(&part(line, 0, equals));
                if name.len() != 1 {
                    return Err(Expected::ClassName);
                }
                let letters = strings_of(&split_words(&part(line, equals + 1, line.len())));
                let ghost added = (name[0]@, letters.deep_view());
                proof {
                    lemma_chars_view(name[0]);
                }
                assert(name.deep_view()[0] == name[0]@);
                ast.classes.push((string_of(&name[0]), letters));
                assert(ast.classes.deep_view() =~= before.classes.push(added));
                Ok(Section::Outside)
            } else {
                match add_content(ast, section, line) {
                    Ok(_) => Ok(section),
                    Err(e) => Err(e),
                }
            }
        },
    }
}

/// Reads a description.
pub fn from_string(input: &str) -> (read: Result<Ast, ParseError>)
    ensures
        match read {
            Ok(ast) => parsed(input@) == Ok::<AstView, ParseError>(ast.deep_view()),
            Err(e) => parsed(input@) == Err::<AstView, ParseError>(e),
        },
{
    let text = chars_of(input);
    let lines = split_lines(&text);
    let ghost lv = lines.deep_view();
    let mut ast = Ast {
        imports: Vec::new(),
        letters: Vec::new(),
        classes: Vec::new(),
        syllables: Vec::new(),
        rules: Vec::new(),
        phonemes: Vec::new(),
    };
    assert(ast.deep_view().imports =~= Seq::empty());
    assert(ast.deep_view().letters =~= Seq::empty());
    assert(ast.deep_view().classes =~= Seq::empty());
    assert(ast.deep_view().syllables =~= Seq::empty());
    assert(ast.deep_view().rules =~= Seq::empty());
    assert(ast.deep_view().phonemes =~= Seq::empty());
    let mut section = Section::Outside;
    let mut n: usize = 0;
    while n < lines.len()
        invariant
            n <= lines.len(),
            lv == lines.deep_view(),
            lv == super::scan::lines(input@),
            read_upto(lv, n as int) == Ok::<(AstView, Section), ParseError>(
                (ast.deep_view(), section),
            ),
        decreases lines.len() - n,
    {
        assert(lv[n as int] == lines[n as int]@);
        match add_line(&mut ast, section, &lines[n]) {
            Ok(next) => {
                section = next;
            },
            Err(expected) => {
                proof {
                    lemma_read_fails(lv, n + 1, lines.len() as int);
                }
                return Err(ParseError { line: n + 1, expected });
            },
        }
        n += 1;
    }
    Ok(ast)
}

} // verus!
