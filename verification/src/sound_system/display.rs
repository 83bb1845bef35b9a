//! Names and written forms.
//!
//! A sound system written out reads as a description: its letters with
//! their weights, its pronunciations, classes, syllable shapes and the names
//! of its rules.
use super::phone::codec::ipa_of_phone;
use super::phone::{ConsonantManner, Height, Phone};
use super::resolver::{write_phones, written};
use super::system::{SoundSystem, SoundSystemView};
use super::types::{
    lemma_phones_view, Class, ClassesView, Condition, ConditionOperand, ConditionType,
    ConditionTypeView, ConditionView, Distribution, MonoSyllableRepartition, Phoneme,
    PhonemeCondition, PhonemeView, RealizationView, Rule, RuleView, Syllable,
};
use crate::text::{join, joined};
use std::str::FromStr;
use vstd::prelude::*;
use vstd::string::StringExecFns;

verus! {

/// The name of a manner of articulation.
pub open spec fn manner_name(manner: ConsonantManner) -> Seq<char> {
    match manner {
        ConsonantManner::Nasal => "Nasal"@,
        ConsonantManner::Stop => "Stop"@,
        ConsonantManner::SibilantFricative => "Sibilant fricative"@,
        ConsonantManner::Fricative => "Fricative"@,
        ConsonantManner::Trill => "Trill"@,
        ConsonantManner::Tap => "Tap"@,
        ConsonantManner::LateralFricative => "Lateral fricative"@,
        ConsonantManner::Approximant => "Approximant"@,
        ConsonantManner::LateralApproximant => "Lateral approximant"@,
        ConsonantManner::LateralTap => "Lateral tap"@,
    }
}

/// The name of a vowel height.
pub open spec fn height_name(height: Height) -> Seq<char> {
    match height {
        Height::Close => "Close"@,
        Height::NearClose => "Near close"@,
        Height::CloseMid => "Close mid"@,
        Height::Mid => "Mid"@,
        Height::OpenMid => "Open mid"@,
        Height::NearOpen => "Near open"@,
        Height::Open => "Open"@,
    }
}

/// A phone as text: its character, or nothing if it has none.
pub open spec fn phone_text(phone: Phone) -> Seq<char> {
    match ipa_of_phone(phone) {
        Some(c) => seq![c],
        None => Seq::empty(),
    }
}

/// An operand as it is written.
pub open spec fn operand_text(operand: ConditionOperand) -> Seq<char> {
    match operand {
        ConditionOperand::And => "AND"@,
        ConditionOperand::Or => "OR"@,
    }
}

/// A test as it is written; patterns stand between quotation marks.
pub open spec fn test_text(test: ConditionTypeView) -> Seq<char> {
    match test {
        ConditionTypeView::Empty => Seq::empty(),
        ConditionTypeView::BeginningWord => "at the beginning of word"@,
        ConditionTypeView::EndWord => "at the end of word"@,
        ConditionTypeView::Between(before, after) => "between \""@ + before + "\" and \""@ + after
            + "\""@,
        ConditionTypeView::FollowedBy(pattern) => "followed by \""@ + pattern + "\""@,
    }
}

/// A condition as it is written; one that always holds is written as
/// nothing.
pub open spec fn condition_text(condition: ConditionView) -> Seq<char>
    decreases condition,
{
    match condition {
        ConditionView::Always => Seq::empty(),
        ConditionView::Single(test) => test_text(test),
        ConditionView::Not(test) => "NOT "@ + test_text(test),
        ConditionView::Binary { operand, left, right } => condition_text(*left) + " "@
            + operand_text(operand) + " "@ + condition_text(*right),
    }
}

/// The character of a digit.
pub open spec fn digit_char(digit: int) -> char {
    seq!['0', '1', '2', '3', '4', '5', '6', '7', '8', '9'][digit]
}

/// A number in decimal digits.
pub open spec fn decimal(number: nat) -> Seq<char>
    decreases number,
{
    if number < 10 {
        seq![digit_char(number as int)]
    } else {
        decimal(number / 10).push(digit_char((number % 10) as int))
    }
}

/// A number below a million in six digits.
pub open spec fn six_digits(number: nat) -> Seq<char> {
    seq![
        digit_char((number / 100000 % 10) as int),
        digit_char((number / 10000 % 10) as int),
        digit_char((number / 1000 % 10) as int),
        digit_char((number / 100 % 10) as int),
        digit_char((number / 10 % 10) as int),
        digit_char((number % 10) as int),
    ]
}

/// Digits without the zeros at their end.
pub open spec fn without_zeros(digits: Seq<char>) -> Seq<char>
    decreases digits.len(),
{
    if digits.len() > 0 && digits.last() == '0' {
        without_zeros(digits.drop_last())
    } else {
        digits
    }
}

/// A weight, which is kept in millionths, as a decimal number.
pub open spec fn weight_text(weight: u64) -> Seq<char> {
    let whole = decimal((weight / 1000000) as nat);
    if weight % 1000000 == 0 {
        whole
    } else {
        whole + seq!['.'] + without_zeros(six_digits((weight % 1000000) as nat))
    }
}

/// A letter with its weight as it is written: the letter alone where the
/// weight is zero.
pub open spec fn letter_text(letter: (Seq<char>, u64)) -> Seq<char> {
    if letter.1 == 0 {
        letter.0
    } else {
        letter.0 + seq![':'] + weight_text(letter.1)
    }
}

/// The written forms of the first `upto` letters.
pub open spec fn letter_texts(distribution: Seq<(Seq<char>, u64)>) -> Seq<Seq<char>> {
    Seq::new(distribution.len(), |i: int| letter_text(distribution[i]))
}

/// The line of one pronunciation of a letter.
pub open spec fn realization_line(letter: Seq<char>, realization: RealizationView) -> Seq<char> {
    "  "@ + letter + " /"@ + written(realization.0) + "/ "@ + condition_text(realization.1)
        + seq!['\n']
}

/// The lines of the first `upto` pronunciations of a letter.
pub open spec fn realization_lines(letter: Seq<char>, list: Seq<RealizationView>, upto: int) -> Seq<
    char,
>
    decreases upto,
{
    if upto <= 0 || upto > list.len() {
        Seq::empty()
    } else {
        realization_lines(letter, list, upto - 1) + realization_line(letter, list[upto - 1])
    }
}

/// The lines of the first `upto` entries of the table.
pub open spec fn phoneme_lines(table: Seq<PhonemeView>, upto: int) -> Seq<char>
    decreases upto,
{
    if upto <= 0 || upto > table.len() {
        Seq::empty()
    } else {
        phoneme_lines(table, upto - 1) + realization_lines(
            table[upto - 1].0,
            table[upto - 1].1,
            table[upto - 1].1.len() as int,
        )
    }
}

/// The lines of the first `upto` classes: before each an empty line, then
/// its name, an equals sign and its letters without a gap.
pub open spec fn class_lines(classes: ClassesView, upto: int) -> Seq<char>
    decreases upto,
{
    if upto <= 0 || upto > classes.len() {
        Seq::empty()
    } else {
        class_lines(classes, upto - 1) + seq!['\n'] + classes[upto - 1].0 + " = "@ + joined(
            classes[upto - 1].1,
            Seq::empty(),
        ) + seq!['\n']
    }
}

/// The syllable shapes, each written without a gap.
pub open spec fn shape_texts(syllables: Seq<Seq<Seq<char>>>) -> Seq<Seq<char>> {
    Seq::new(syllables.len(), |i: int| joined(syllables[i], Seq::empty()))
}

/// The names of the first `upto` rules, a line each.
pub open spec fn rule_lines(rules: Seq<RuleView>, upto: int) -> Seq<char>
    decreases upto,
{
    if upto <= 0 || upto > rules.len() {
        Seq::empty()
    } else {
        rule_lines(rules, upto - 1) + rules[upto - 1].name() + seq!['\n']
    }
}

/// A sound system written out.
pub open spec fn system_text(system: SoundSystemView) -> Seq<char> {
    "letters: "@ + joined(letter_texts(system.distribution), ", "@) + seq!['\n'] + seq!['\n']
        + "phonemes:\n"@ + phoneme_lines(system.phonemes, system.phonemes.len() as int)
        + class_lines(system.classes, system.classes.len() as int) + seq!['\n'] + "syllables: "@
        + joined(shape_texts(system.syllables), " "@) + seq!['\n'] + seq!['\n'] + "rules:\n"@
        + rule_lines(system.rules, system.rules.len() as int)
}

/// The repartition that a name stands for.
pub open spec fn repartition_named(name: Seq<char>) -> Option<MonoSyllableRepartition> {
    if name == "always"@ {
        Some(MonoSyllableRepartition::Always)
    } else if name == "mostly"@ {
        Some(MonoSyllableRepartition::Mostly)
    } else if name == "frequent"@ {
        Some(MonoSyllableRepartition::Frequent)
    } else if name == "less_frequent"@ {
        Some(MonoSyllableRepartition::LessFrequent)
    } else if name == "rare"@ {
        Some(MonoSyllableRepartition::Rare)
    } else if name == "never"@ {
        Some(MonoSyllableRepartition::Never)
    } else {
        None
    }
}

impl ConsonantManner {
    /// The name of the manner.
    pub fn to_string(&self) -> (name: String)
        ensures
            name@ == manner_name(*self),
    {
        (match self {
                ConsonantManner::Nasal => "Nasal",
                ConsonantManner::Stop => "Stop",
                ConsonantManner::SibilantFricative => "Sibilant fricative",
                ConsonantManner::Fricative => "Fricative",
                ConsonantManner::Trill => "Trill",
                ConsonantManner::Tap => "Tap",
                ConsonantManner::LateralFricative => "Lateral fricative",
                ConsonantManner::Approximant => "Approximant",
                ConsonantManner::LateralApproximant => "Lateral approximant",
                ConsonantManner::LateralTap => "Lateral tap",
        }).to_owned()
    }
}

impl Height {
    /// The name of the height.
    pub fn to_string(&self) -> (name: String)
        ensures
            name@ == height_name(*self),
    {
        (match self {
                Height::Close => "Close",
                Height::NearClose => "Near close",
                Height::CloseMid => "Close mid",
                Height::Mid => "Mid",
                Height::OpenMid => "Open mid",
                Height::NearOpen => "Near open",
                Height::Open => "Open",
        }).to_owned()
    }
}

impl Phone {
    /// The phone as text: its character, or nothing if it has none.
    pub fn to_string(&self) -> (text: String)
        ensures
            text@ == phone_text(*self),
    {
        let mut text = String::new();
        match self.ipa() {
            Some(c) => {
                text.push(c);
                assert(text@ =~= seq![c]);
            },
            None => {},
        }
        text
    }
}

impl ConditionOperand {
    pub fn to_string(&self) -> (text: String)
        ensures
            text@ == operand_text(*self),
    {
        (match self {
                ConditionOperand::And => "AND",
                ConditionOperand::Or => "OR",
        }).to_owned()
    }
}

impl ConditionType {
    pub fn to_string(&self) -> (text: String)
        ensures
            text@ == test_text(self.deep_view()),
    {
        let mut text = String::new();
        match self {
            ConditionType::Empty => {},
            ConditionType::BeginningWord => {
                text.append("at the beginning of word");
            },
            ConditionType::EndWord => {
                text.append("at the end of word");
            },
            ConditionType::Between(before, after) => {
                text.append("between \"");
                text.append(before.as_str());
                text.append("\" and \"");
                text.append(after.as_str());
                text.append("\"");
            },
            ConditionType::FollowedBy(pattern) => {
                text.append("followed by \"");
                text.append(pattern.as_str());
                text.append("\"");
            },
        }
        assert(text@ =~= test_text(self.deep_view()));
        text
    }
}

impl Condition {
    pub fn to_string(&self) -> (text: String)
        ensures
            text@ == condition_text(self.deep_view()),
        decreases self,
    {
        let mut text = String::new();
        match self {
            Condition::Always => {},
            Condition::Single(test) => {
                text.append(test.to_string().as_str());
            },
            Condition::Not(test) => {
                text.append("NOT ");
                text.append(test.to_string().as_str());
            },
            Condition::Binary { operand, left, right } => {
                let first = (&**left).to_string();
                let second = (&**right).to_string();
                text.append(first.as_str());
                text.append(" ");
                text.append(operand.to_string().as_str());
                text.append(" ");
                text.append(second.as_str());
            },
        }
        assert(text@ =~= condition_text(self.deep_view()));
        text
    }
}

impl Rule {
    /// The name of the rule.
    pub fn to_string(&self) -> (text: String)
        ensures
            text@ == self.deep_view().name(),
    {
        match self {
            Rule::SoundRule { name, .. } => name.clone(),
            Rule::PhonemeRule { name, .. } => name.clone(),
        }
    }
}

impl MonoSyllableRepartition {
    /// The repartition that a name stands for.
    pub fn from_name(name: &str) -> (found: Option<MonoSyllableRepartition>)
        ensures
            found == repartition_named(name@),
    {
        let chars = crate::text::chars_of(name);
        if crate::wgl::scan::is_word(&chars, "always") {
            Some(MonoSyllableRepartition::Always)
        } else if crate::wgl::scan::is_word(&chars, "mostly") {
            Some(MonoSyllableRepartition::Mostly)
        } else if crate::wgl::scan::is_word(&chars, "frequent") {
            Some(MonoSyllableRepartition::Frequent)
        } else if crate::wgl::scan::is_word(&chars, "less_frequent") {
            Some(MonoSyllableRepartition::LessFrequent)
        } else if crate::wgl::scan::is_word(&chars, "rare") {
            Some(MonoSyllableRepartition::Rare)
        } else if crate::wgl::scan::is_word(&chars, "never") {
            Some(MonoSyllableRepartition::Never)
        } else {
            None
        }
    }
}

impl FromStr for MonoSyllableRepartition {
    type Err = &'static str;

    /// The repartition that a name stands for; any other text is refused
    /// with the words `no match`.
    fn from_str(s: &str) -> (found: Result<Self, Self::Err>)
        ensures
            found == match repartition_named(s@) {
                Some(repartition) => Ok::<MonoSyllableRepartition, &'static str>(repartition),
                None => Err::<MonoSyllableRepartition, &'static str>("no match"),
            },
    {
        match MonoSyllableRepartition::from_name(s) {
            Some(repartition) => Ok(repartition),
            None => Err("no match"),
        }
    }
}

fn digit_of(digit: u64) -> (c: char)
    requires
        digit < 10,
    ensures
        c == digit_char(digit as int),
{
    match digit {
        0 => '0',
        1 => '1',
        2 => '2',
        3 => '3',
        4 => '4',
        5 => '5',
        6 => '6',
        7 => '7',
        8 => '8',
        _ => '9',
    }
}

fn write_decimal(out: &mut String, number: u64)
    ensures
        final(out)@ == old(out)@ + decimal(number as nat),
    decreases number,
{
    let ghost before = out@;
    if number >= 10 {
        write_decimal(out, number / 10);
    }
    out.push(digit_of(number % 10));
    assert(out@ =~= before + decimal(number as nat));
}

fn write_weight(out: &mut String, weight: u64)
    ensures
        final(out)@ == old(out)@ + weight_text(weight),
{
    let ghost before = out@;
    write_decimal(out, weight / 1000000);
    let part = weight % 1000000;
    if part == 0 {
        return ;
    }
    out.push('.');
    let mut digits: Vec<char> = Vec::new();
    digits.push(digit_of(part / 100000 % 10));
    digits.push(digit_of(part / 10000 % 10));
    digits.push(digit_of(part / 1000 % 10));
    digits.push(digit_of(part / 100 % 10));
    digits.push(digit_of(part / 10 % 10));
    digits.push(digit_of(part % 10));
    assert(digits@ =~= six_digits(part as nat));
    let mut end: usize = 6;
    assert(digits@.take(6) =~= digits@);
    while end > 0 && digits[end - 1] == '0'
        invariant
            end <= digits.len(),
            without_zeros(digits@) == without_zeros(digits@.take(end as int)),
        decreases end,
    {
        assert(digits@.take(end as int).drop_last() =~= digits@.take(end - 1));
        end -= 1;
    }
    let ghost pointed = out@;
    let mut i: usize = 0;
    while i < end
        invariant
            i <= end <= digits.len(),
            out@ == pointed + digits@.take(i as int),
        decreases end - i,
    {
        out.push(digits[i]);
        assert(out@ =~= pointed + digits@.take(i + 1));
        i += 1;
    }
    assert(out@ =~= before + weight_text(weight));
}

fn write_letters(distribution: &Vec<Distribution>) -> (texts: Vec<String>)
    ensures
        texts.deep_view() == letter_texts(distribution.deep_view()),
{
    let ghost dv = distribution.deep_view();
    let mut texts: Vec<String> = Vec::new();
    let mut i: usize = 0;
    while i < distribution.len()
        invariant
            i <= distribution.len(),
            dv == distribution.deep_view(),
            texts.len() == i,
            forall|j: int| 0 <= j < i ==> (#[trigger] texts[j])@ == letter_text(dv[j]),
        decreases distribution.len() - i,
    {
        assert(dv[i as int] == distribution[i as int].deep_view());
        let mut text = distribution[i].0.clone();
        if distribution[i].1 != 0 {
            text.push(':');
            write_weight(&mut text, distribution[i].1);
            assert(text@ =~= letter_text(dv[i as int]));
        }
        texts.push(text);
        i += 1;
    }
    assert(texts.deep_view() =~= letter_texts(dv));
    texts
}

fn write_realizations(out: &mut String, letter: &String, list: &Vec<PhonemeCondition>)
    ensures
        final(out)@ == old(out)@ + realization_lines(
            letter@,
            list.deep_view(),
            list.len() as int,
        ),
{
    let ghost before = out@;
    let ghost lv = list.deep_view();
    let mut j: usize = 0;
    assert(out@ =~= before + realization_lines(letter@, lv, 0));
    while j < list.len()
        invariant
            j <= list.len(),
            lv == list.deep_view(),
            out@ == before + realization_lines(letter@, lv, j as int),
        decreases list.len() - j,
    {
        assert(lv[j as int] == list[j as int].deep_view());
        proof {
            lemma_phones_view(list[j as int].0);
        }
        let ghost so_far = out@;
        out.append("  ");
        out.append(letter.as_str());
        out.append(" /");
        write_phones(out, &list[j].0);
        out.append("/ ");
        out.append(list[j].1.to_string().as_str());
        out.push('\n');
        assert(out@ =~= so_far + realization_line(letter@, lv[j as int]));
        assert(out@ =~= before + realization_lines(letter@, lv, j + 1));
        j += 1;
    }
}

fn write_phonemes(out: &mut String, table: &Vec<Phoneme>)
    ensures
        final(out)@ == old(out)@ + phoneme_lines(table.deep_view(), table.len() as int),
{
    let ghost before = out@;
    let ghost tv = table.deep_view();
    let mut k: usize = 0;
    assert(out@ =~= before + phoneme_lines(tv, 0));
    while k < table.len()
        invariant
            k <= table.len(),
            tv == table.deep_view(),
            out@ == before + phoneme_lines(tv, k as int),
        decreases table.len() - k,
    {
        assert(tv[k as int] == table[k as int].deep_view());
        write_realizations(out, &table[k].0, &table[k].1);
        assert(out@ =~= before + phoneme_lines(tv, k + 1));
        k += 1;
    }
}

fn write_classes(out: &mut String, classes: &Vec<Class>)
    ensures
        final(out)@ == old(out)@ + class_lines(classes.deep_view(), classes.len() as int),
{
    let ghost before = out@;
    let ghost cv = classes.deep_view();
    let mut k: usize = 0;
    assert(out@ =~= before + class_lines(cv, 0));
    while k < classes.len()
        invariant
            k <= classes.len(),
            cv == classes.deep_view(),
            out@ == before + class_lines(cv, k as int),
        decreases classes.len() - k,
    {
        assert(cv[k as int] == classes[k as int].deep_view());
        proof {
            reveal_strlit("");
        }
        assert(""@ =~= Seq::<char>::empty());
        out.push('\n');
        out.append(classes[k].0.as_str());
        out.append(" = ");
        join(out, &classes[k].1, "");
        out.push('\n');
        assert(out@ =~= before + class_lines(cv, k + 1));
        k += 1;
    }
}

fn write_shapes(syllables: &Vec<Syllable>) -> (texts: Vec<String>)
    ensures
        texts.deep_view() == shape_texts(syllables.deep_view()),
{
    let ghost sv = syllables.deep_view();
    let mut texts: Vec<String> = Vec::new();
    let mut i: usize = 0;
    while i < syllables.len()
        invariant
            i <= syllables.len(),
            sv == syllables.deep_view(),
            texts.len() == i,
            forall|j: int|
                0 <= j < i ==> (#[trigger] texts[j])@ == joined(sv[j], Seq::<char>::empty()),
        decreases syllables.len() - i,
    {
        assert(sv[i as int] == syllables[i as int].deep_view());
        proof {
            reveal_strlit("");
        }
        assert(""@ =~= Seq::<char>::empty());
        let mut text = String::new();
        join(&mut text, &syllables[i], "");
        assert(text@ =~= joined(sv[i as int], Seq::<char>::empty()));
        texts.push(text);
        i += 1;
    }
    assert(texts.deep_view() =~= shape_texts(sv));
    texts
}

fn write_rules(out: &mut String, rules: &Vec<Rule>)
    ensures
        final(out)@ == old(out)@ + rule_lines(rules.deep_view(), rules.len() as int),
{
    let ghost before = out@;
    let ghost rv = rules.deep_view();
    let mut k: usize = 0;
    assert(out@ =~= before + rule_lines(rv, 0));
    while k < rules.len()
        invariant
            k <= rules.len(),
            rv == rules.deep_view(),
            out@ == before + rule_lines(rv, k as int),
        decreases rules.len() - k,
    {
        assert(rv[k as int] == rules[k as int].deep_view());
        out.append(rules[k].to_string().as_str());
        out.push('\n');
        assert(out@ =~= before + rule_lines(rv, k + 1));
        k += 1;
    }
}

impl SoundSystem {
    /// The system written out.
    pub fn to_string(&self) -> (text: String)
        ensures
            text@ == system_text(self@),
    {
        let mut text = String::new();
        text.append("letters: ");
        join(&mut text, &write_letters(self.distribution()), ", ");
        text.push('\n');
        text.push('\n');
        text.append("phonemes:\n");
        write_phonemes(&mut text, self.phonemes_non_mut());
        write_classes(&mut text, self.classes());
        text.push('\n');
        text.append("syllables: ");
        join(&mut text, &write_shapes(self.syllables()), " ");
        text.push('\n');
        text.push('\n');
        text.append("rules:\n");
        write_rules(&mut text, self.rules());
        assert(text@ =~= system_text(self@));
        text
    }
}

} // verus!
