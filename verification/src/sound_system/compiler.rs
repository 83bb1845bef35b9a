//! From a parsed description to a sound system.
use super::class_table::{find_class, lemma_with_classes, letters_of, put_classes, with_classes};
use super::inference::{infer_classes, inferred};
use super::phone::codec::phone_of_ipa;
use super::phone::{Phone, Phones};
use super::spelling::{
    enter_phonemes, lemma_seeded, lemma_with_phonemes, seed, seeded, with_phonemes,
};
use super::system::{SoundSystem, SoundSystemView};
use super::types::{
    Class, ClassesView, Distribution, PhonemeDifference, PhonemeDifferenceView, Rule, RuleView,
};
use crate::text::{char_text, chars_of, clone_strings, join, joined, uppercase};
use crate::wgl::{
    Ast, AstView, Environment, EnvironmentView, Letter, TransformationRule,
    TransformationRuleView,
};
use vstd::prelude::*;
use vstd::string::StringExecFns;

verus! {

/// The phones that the characters of `text` stand for, in order. A character
/// that stands for no phone is left out.
pub open spec fn phones_of(text: Seq<char>) -> Seq<Phone>
    decreases text.len(),
{
    if text.len() == 0 {
        Seq::empty()
    } else {
        let before = phones_of(text.drop_last());
        match phone_of_ipa(text.last()) {
            Some(phone) => before.push(phone),
            None => before,
        }
    }
}

/// A nasal vowel written as one character, taken apart: the name of the
/// vowel class it stands for and the mark of nasality. Any other character
/// stays as it is.
pub open spec fn taken_apart(c: char) -> Seq<char> {
    if c == '\u{1E7C}' {
        seq!['V', '\u{303}']
    } else if c == '\u{1EBC}' {
        seq!['E', '\u{303}']
    } else if c == '\u{1EF8}' {
        seq!['Y', '\u{303}']
    } else {
        seq![c]
    }
}

/// A text with its nasal vowels taken apart.
pub open spec fn unfolded(text: Seq<char>) -> Seq<char>
    decreases text.len(),
{
    if text.len() == 0 {
        Seq::empty()
    } else {
        unfolded(text.drop_last()) + taken_apart(text.last())
    }
}

/// Every text of `left` followed by every text of `right`: for the first
/// text of `left` all of `right` in order, then for the second, and so on.
pub open spec fn product(left: Seq<Seq<char>>, right: Seq<Seq<char>>) -> Seq<Seq<char>>
    decreases left.len(),
{
    if left.len() == 0 {
        Seq::empty()
    } else {
        product(left.drop_last(), right) + Seq::new(right.len(), |j: int| left.last() + right[j])
    }
}

/// The candidates after one more character of the pattern. The name of a
/// declared class multiplies the candidates by its letters; the name of a
/// class that is not declared changes nothing; any other character is added
/// to every candidate. Where there is no candidate yet, the letters of the
/// class, or the character, are the first.
pub open spec fn grown(classes: ClassesView, so_far: Seq<Seq<char>>, c: char) -> Seq<Seq<char>> {
    if uppercase(c) {
        match letters_of(classes, seq![c]) {
            Some(letters) => if so_far.len() == 0 {
                letters
            } else {
                product(so_far, letters)
            },
            None => so_far,
        }
    } else if so_far.len() == 0 {
        seq![seq![c]]
    } else {
        Seq::new(so_far.len(), |i: int| so_far[i].push(c))
    }
}

/// The candidates that a pattern of characters and class names stands for,
/// read as it is.
pub open spec fn grown_all(classes: ClassesView, pattern: Seq<char>) -> Seq<Seq<char>>
    decreases pattern.len(),
{
    if pattern.len() == 0 {
        Seq::empty()
    } else {
        grown(classes, grown_all(classes, pattern.drop_last()), pattern.last())
    }
}

/// The texts that a pattern of characters and class names stands for, nasal
/// vowels taken apart first.
pub open spec fn expanded(classes: ClassesView, pattern: Seq<char>) -> Seq<Seq<char>> {
    grown_all(classes, unfolded(pattern))
}

/// The changes that a phoneme rule makes. Without an output every text that
/// the input stands for is deleted. With one, the texts of the input and
/// those of the output are paired off in order, as far as both go, and each
/// text of the input is given the phones of its partner.
pub open spec fn differences(
    classes: ClassesView,
    input: Seq<char>,
    output: Option<Seq<char>>,
) -> Seq<PhonemeDifferenceView> {
    let letters = expanded(classes, input);
    match output {
        None => Seq::new(letters.len(), |i: int| PhonemeDifferenceView::Delete(letters[i])),
        Some(output) => {
            let sounds = expanded(classes, output);
            let pairs = if letters.len() <= sounds.len() {
                letters.len()
            } else {
                sounds.len()
            };
            Seq::new(
                pairs,
                |i: int| PhonemeDifferenceView::Upsert(letters[i], phones_of(sounds[i])),
            )
        },
    }
}

/// One character of a rule's input as a pattern: the name of a declared
/// class becomes a group of that name that matches any of its letters, the
/// name of a class that is not declared becomes nothing, any other
/// character stands for itself.
pub open spec fn input_piece(classes: ClassesView, c: char) -> Seq<char> {
    if uppercase(c) {
        match letters_of(classes, seq![c]) {
            Some(letters) => "(?P<"@ + seq![c] + seq!['>'] + joined(letters, "|"@) + seq![')'],
            None => Seq::empty(),
        }
    } else {
        seq![c]
    }
}

/// The characters of a rule's input as a pattern, one after another.
pub open spec fn input_pieces(classes: ClassesView, input: Seq<char>) -> Seq<char>
    decreases input.len(),
{
    if input.len() == 0 {
        Seq::empty()
    } else {
        input_pieces(classes, input.drop_last()) + input_piece(classes, input.last())
    }
}

/// The group named `input` that matches a rule's input.
pub open spec fn input_group(classes: ClassesView, input: Seq<char>) -> Seq<char> {
    "(?P<input>"@ + input_pieces(classes, input) + seq![')']
}

/// One character of a rule's environment as a pattern. `#` is the start of
/// the word in the first place and its end anywhere else; the name of a
/// declared class is a group that matches any of its letters, the name of a
/// class that is not declared is nothing; `_` is the input; `*` is as little
/// as possible of anything; any other character stands for itself.
pub open spec fn environment_piece(
    classes: ClassesView,
    input: Seq<char>,
    index: int,
    c: char,
) -> Seq<char> {
    if c == '#' {
        if index == 0 {
            seq!['^']
        } else {
            seq!['$']
        }
    } else if uppercase(c) {
        match letters_of(classes, seq![c]) {
            Some(letters) => seq!['('] + joined(letters, "|"@) + seq![')'],
            None => Seq::empty(),
        }
    } else if c == '_' {
        input_group(classes, input)
    } else if c == '*' {
        "(.*?)"@
    } else {
        seq![c]
    }
}

/// The first `upto` characters of a rule's environment as a pattern.
pub open spec fn environment_pieces(
    classes: ClassesView,
    input: Seq<char>,
    environment: Seq<char>,
    upto: int,
) -> Seq<char>
    decreases upto,
{
    if upto <= 0 || upto > environment.len() {
        Seq::empty()
    } else {
        environment_pieces(classes, input, environment, upto - 1) + environment_piece(
            classes,
            input,
            upto - 1,
            environment[upto - 1],
        )
    }
}

/// The pattern of a rule: its input alone where it applies everywhere or
/// has no environment, else its environment with the input in its place.
pub open spec fn pattern_of(classes: ClassesView, rule: TransformationRuleView) -> Seq<char> {
    match rule {
        TransformationRuleView::SoundRule { environment: EnvironmentView::Match(text), input, .. } => {
            environment_pieces(classes, input, text, text.len() as int)
        },
        _ => input_group(classes, rule.input()),
    }
}

/// Reads a spelling character by character as phones, passing over the
/// characters that stand for none.
pub fn convert_ipa_letters_to_sounds(letter: &str) -> (phones: Phones)
    ensures
        phones@ == phones_of(letter@),
{
    let chars = chars_of(letter);
    let mut phones: Phones = Vec::new();
    let mut i: usize = 0;
    while i < chars.len()
        invariant
            i <= chars.len(),
            chars@ == letter@,
            phones@ == phones_of(chars@.take(i as int)),
        decreases chars.len() - i,
    {
        assert(chars@.take(i + 1).drop_last() =~= chars@.take(i as int));
        match Phone::from_ipa(chars[i]) {
            Some(phone) => {
                phones.push(phone);
            },
            None => {},
        }
        i += 1;
    }
    assert(chars@.take(i as int) =~= chars@);
    phones
}

fn unfold(text: &str) -> (chars: Vec<char>)
    ensures
        chars@ == unfolded(text@),
{
    let given = chars_of(text);
    let mut chars: Vec<char> = Vec::new();
    let mut i: usize = 0;
    while i < given.len()
        invariant
            i <= given.len(),
            given@ == text@,
            chars@ == unfolded(given@.take(i as int)),
        decreases given.len() - i,
    {
        assert(given@.take(i + 1).drop_last() =~= given@.take(i as int));
        let ghost before = chars@;
        let c = given[i];
        if c == '\u{1E7C}' {
            chars.push('V');
            chars.push('\u{303}');
        } else if c == '\u{1EBC}' {
            chars.push('E');
            chars.push('\u{303}');
        } else if c == '\u{1EF8}' {
            chars.push('Y');
            chars.push('\u{303}');
        } else {
            chars.push(c);
        }
        assert(chars@ =~= before + taken_apart(c));
        i += 1;
    }
    assert(given@.take(i as int) =~= given@);
    chars
}

fn multiply(left: &Vec<String>, right: &Vec<String>) -> (all: Vec<String>)
    ensures
        all.deep_view() == product(left.deep_view(), right.deep_view()),
{
    let ghost lv = left.deep_view();
    let ghost rv = right.deep_view();
    let mut all: Vec<String> = Vec::new();
    let mut i: usize = 0;
    assert(all.deep_view() =~= product(lv.take(0), rv));
    while i < left.len()
        invariant
            i <= left.len(),
            lv == left.deep_view(),
            rv == right.deep_view(),
            all.deep_view() == product(lv.take(i as int), rv),
        decreases left.len() - i,
    {
        let ghost before = all.deep_view();
        let mut j: usize = 0;
        assert(lv[i as int] == left[i as int]@);
        while j < right.len()
            invariant
                j <= right.len(),
                i < left.len(),
                lv == left.deep_view(),
                rv == right.deep_view(),
                all.deep_view() == before + Seq::new(j as nat, |k: int| lv[i as int] + rv[k]),
            decreases right.len() - j,
        {
            assert(rv[j as int] == right[j as int]@);
            let mut text = left[i].clone();
            text.append(right[j].as_str());
            let ghost so_far = all.deep_view();
            let ghost added = text@;
            assert(lv[i as int] == left[i as int]@);
            all.push(text);
            assert(all.deep_view() =~= so_far.push(added));
            assert(all.deep_view() =~= before + Seq::new(
                (j + 1) as nat,
                |k: int| lv[i as int] + rv[k],
            ));
            j += 1;
        }
        assert(lv.take(i + 1).drop_last() =~= lv.take(i as int));
        assert(lv.take(i + 1).last() == lv[i as int]);
        i += 1;
    }
    assert(lv.take(i as int) =~= lv);
    all
}

fn grow(classes: &Vec<Class>, so_far: Vec<String>, c: char) -> (next: Vec<String>)
    ensures
        next.deep_view() == grown(classes.deep_view(), so_far.deep_view(), c),
{
    if c.is_uppercase() {
        let name = char_text(c);
        match find_class(classes, name.as_str()) {
            Some(k) => {
                if so_far.len() == 0 {
                    clone_strings(&classes[k].1)
                } else {
                    multiply(&so_far, &classes[k].1)
                }
            },
            None => so_far,
        }
    } else if so_far.len() == 0 {
        let mut next: Vec<String> = Vec::new();
        next.push(char_text(c));
        assert(next.deep_view() =~= seq![seq![c]]);
        next
    } else {
        let ghost view = so_far.deep_view();
        let mut next: Vec<String> = Vec::new();
        let mut i: usize = 0;
        while i < so_far.len()
            invariant
                i <= so_far.len(),
                view == so_far.deep_view(),
                next.len() == i,
                forall|j: int| 0 <= j < i ==> (#[trigger] next[j])@ == view[j].push(c),
            decreases so_far.len() - i,
        {
            assert(view[i as int] == so_far[i as int]@);
            let mut text = so_far[i].clone();
            text.push(c);
            next.push(text);
            i += 1;
        }
        assert(next.deep_view() =~= Seq::new(view.len(), |i: int| view[i].push(c)));
        next
    }
}

/// The texts that a pattern of characters and class names stands for.
pub fn expand(classes: &Vec<Class>, pattern: &str) -> (texts: Vec<String>)
    ensures
        texts.deep_view() == expanded(classes.deep_view(), pattern@),
{
    let chars = unfold(pattern);
    let mut texts: Vec<String> = Vec::new();
    let mut i: usize = 0;
    assert(texts.deep_view() =~= grown_all(classes.deep_view(), chars@.take(0)));
    while i < chars.len()
        invariant
            i <= chars.len(),
            chars@ == unfolded(pattern@),
            texts.deep_view() == grown_all(classes.deep_view(), chars@.take(i as int)),
        decreases chars.len() - i,
    {
        assert(chars@.take(i + 1).drop_last() =~= chars@.take(i as int));
        texts = grow(classes, texts, chars[i]);
        i += 1;
    }
    assert(chars@.take(i as int) =~= chars@);
    texts
}

/// The changes that a phoneme rule with the given input and output makes.
pub fn rule_to_phoneme_differences(
    classes: &Vec<Class>,
    phoneme: &str,
    maybe_phones: Option<String>,
) -> (changes: Vec<PhonemeDifference>)
    ensures
        changes.deep_view() == differences(
            classes.deep_view(),
            phoneme@,
            maybe_phones.deep_view(),
        ),
{
    let letters = expand(classes, phoneme);
    let ghost lv = letters.deep_view();
    let mut changes: Vec<PhonemeDifference> = Vec::new();
    match maybe_phones {
        None => {
            let mut i: usize = 0;
            while i < letters.len()
                invariant
                    i <= letters.len(),
                    lv == letters.deep_view(),
                    changes.len() == i,
                    forall|j: int|
                        0 <= j < i ==> (#[trigger] changes[j]).deep_view()
                            == PhonemeDifferenceView::Delete(lv[j]),
                decreases letters.len() - i,
            {
                assert(lv[i as int] == letters[i as int]@);
                changes.push(PhonemeDifference::Delete(letters[i].clone()));
                i += 1;
            }
            assert(changes.deep_view() =~= Seq::new(
                lv.len(),
                |i: int| PhonemeDifferenceView::Delete(lv[i]),
            ));
        },
        Some(phones) => {
            let sounds = expand(classes, phones.as_str());
            let ghost sv = sounds.deep_view();
            let pairs = if letters.len() <= sounds.len() {
                letters.len()
            } else {
                sounds.len()
            };
            let mut i: usize = 0;
            while i < pairs
                invariant
                    i <= pairs,
                    pairs <= letters.len(),
                    pairs <= sounds.len(),
                    lv == letters.deep_view(),
                    sv == sounds.deep_view(),
                    changes.len() == i,
                    forall|j: int|
                        0 <= j < i ==> (#[trigger] changes[j]).deep_view()
                            == PhonemeDifferenceView::Upsert(lv[j], phones_of(sv[j])),
                decreases pairs - i,
            {
                assert(lv[i as int] == letters[i as int]@);
                assert(sv[i as int] == sounds[i as int]@);
                let spoken = convert_ipa_letters_to_sounds(sounds[i].as_str());
                changes.push(PhonemeDifference::Upsert(letters[i].clone(), spoken));
                i += 1;
            }
            assert(changes.deep_view() =~= Seq::new(
                pairs as nat,
                |i: int| PhonemeDifferenceView::Upsert(lv[i], phones_of(sv[i])),
            ));
        },
    }
    changes
}

fn write_input_group(out: &mut String, classes: &Vec<Class>, input: &str)
    ensures
        final(out)@ == old(out)@ + input_group(classes.deep_view(), input@),
{
    let ghost before = out@;
    let ghost cv = classes.deep_view();
    let chars = chars_of(input);
    out.append("(?P<input>");
    let ghost opened = out@;
    let mut i: usize = 0;
    assert(out@ =~= opened + input_pieces(cv, chars@.take(0)));
    while i < chars.len()
        invariant
            i <= chars.len(),
            chars@ == input@,
            cv == classes.deep_view(),
            out@ == opened + input_pieces(cv, chars@.take(i as int)),
        decreases chars.len() - i,
    {
        assert(chars@.take(i + 1).drop_last() =~= chars@.take(i as int));
        let c = chars[i];
        let ghost so_far = out@;
        if c.is_uppercase() {
            let name = char_text(c);
            match find_class(classes, name.as_str()) {
                Some(k) => {
                    out.append("(?P<");
                    out.push(c);
                    out.push('>');
                    join(out, &classes[k].1, "|");
                    out.push(')');
                    assert(out@ =~= so_far + input_piece(cv, c));
                },
                None => {
                    assert(out@ =~= so_far + input_piece(cv, c));
                },
            }
        } else {
            out.push(c);
            assert(out@ =~= so_far + input_piece(cv, c));
        }
        assert(out@ =~= opened + input_pieces(cv, chars@.take(i + 1)));
        i += 1;
    }
    assert(chars@.take(i as int) =~= chars@);
    out.push(')');
    assert(out@ =~= before + input_group(cv, input@));
}

/// The pattern that finds where a rule applies.
pub fn rule_to_regex(classes: &Vec<Class>, rule: &TransformationRule) -> (regex: String)
    ensures
        regex@ == pattern_of(classes.deep_view(), rule.deep_view()),
{
    let ghost cv = classes.deep_view();
    let mut regex = String::new();
    match rule {
        TransformationRule::SoundRule { environment: Environment::Match(pattern), input, .. } => {
            let chars = chars_of(pattern.as_str());
            let mut index: usize = 0;
            assert(regex@ =~= environment_pieces(cv, input@, chars@, 0));
            while index < chars.len()
                invariant
                    index <= chars.len(),
                    chars@ == pattern@,
                    cv == classes.deep_view(),
                    regex@ == environment_pieces(cv, input@, chars@, index as int),
                decreases chars.len() - index,
            {
                let c = chars[index];
                let ghost so_far = regex@;
                if c == '#' {
                    if index == 0 {
                        regex.push('^');
                    } else {
                        regex.push('$');
                    }
                } else if c.is_uppercase() {
                    let name = char_text(c);
                    match find_class(classes, name.as_str()) {
                        Some(k) => {
                            regex.push('(');
                            join(&mut regex, &classes[k].1, "|");
                            regex.push(')');
                        },
                        None => {},
                    }
                } else if c == '_' {
                    write_input_group(&mut regex, classes, input.as_str());
                } else if c == '*' {
                    regex.append("(.*?)");
                } else {
                    regex.push(c);
                }
                assert(regex@ =~= so_far + environment_piece(cv, input@, index as int, c));
                index += 1;
            }
        },
        TransformationRule::SoundRule { input, .. } => {
            write_input_group(&mut regex, classes, input.as_str());
            assert(regex@ =~= input_group(cv, input@));
        },
        TransformationRule::PhonemeRule { input, .. } => {
            write_input_group(&mut regex, classes, input.as_str());
            assert(regex@ =~= input_group(cv, input@));
        },
    }
    regex
}

/// Whether all the letters are declared with the same weight. Weights that
/// are all left out are all zero, and so alike.
pub open spec fn all_alike(letters: Seq<(Seq<char>, u64)>) -> bool {
    forall|i: int| 0 <= i < letters.len() ==> (#[trigger] letters[i]).1 == letters[0].1
}

/// The weight of the letter in the place `i`: its declared weight, unless
/// all declared weights are alike; then the weight that `by_rank` gives to
/// its place, nothing where it gives none.
pub open spec fn weight_at(letters: Seq<(Seq<char>, u64)>, by_rank: Seq<u64>, i: int) -> u64 {
    if !all_alike(letters) {
        letters[i].1
    } else if 0 <= i < by_rank.len() {
        by_rank[i]
    } else {
        0
    }
}

/// The letters with the weights they are drawn with.
pub open spec fn weighted(letters: Seq<(Seq<char>, u64)>, by_rank: Seq<u64>) -> Seq<
    (Seq<char>, u64),
> {
    Seq::new(letters.len(), |i: int| (letters[i].0, weight_at(letters, by_rank, i)))
}

/// A rule of the description made ready: it goes by its written form; a
/// sound rule gets its pattern, a phoneme rule its changes.
pub open spec fn compiled_rule(classes: ClassesView, rule: TransformationRuleView) -> RuleView {
    match rule {
        TransformationRuleView::SoundRule { .. } => RuleView::SoundRule {
            name: rule.text(),
            regex: pattern_of(classes, rule),
            replacement: rule.output(),
        },
        TransformationRuleView::PhonemeRule { .. } => RuleView::PhonemeRule {
            name: rule.text(),
            phoneme_differences: differences(classes, rule.input(), rule.output()),
        },
    }
}

/// The table of pronunciations of a description.
pub open spec fn compiled_table(ast: AstView) -> Seq<super::types::PhonemeView> {
    with_phonemes(
        seeded(ast.letters, ast.letters.len() as int),
        ast.phonemes,
        ast.phonemes.len() as int,
    )
}

/// The classes of a description: those that follow from the phones of its
/// letters, with those that it declares declared over them; a declared
/// class takes the place of the class of the same name.
pub open spec fn compiled_classes(ast: AstView) -> ClassesView {
    with_classes(inferred(ast.letters, compiled_table(ast)), ast.classes, ast.classes.len() as int)
}

/// The sound system that a description stands for. `by_rank` gives the
/// weights by place that are used where the description gives none of its
/// own.
pub open spec fn compiled(ast: AstView, by_rank: Seq<u64>) -> SoundSystemView {
    SoundSystemView {
        classes: compiled_classes(ast),
        phonemes: compiled_table(ast),
        syllables: ast.syllables,
        distribution: weighted(ast.letters, by_rank),
        rules: Seq::new(
            ast.rules.len(),
            |i: int| compiled_rule(compiled_classes(ast), ast.rules[i]),
        ),
    }
}

/// The letters with the weights they are drawn with: the declared weights,
/// unless they are all alike; then the weights by place that `by_rank`
/// gives.
pub fn frequency(letters: &Vec<Letter>, by_rank: &Vec<u64>) -> (weights: Vec<Distribution>)
    ensures
        weights.deep_view() == weighted(letters.deep_view(), by_rank@),
{
    let ghost lv = letters.deep_view();
    let mut alike = true;
    let mut i: usize = 0;
    while i < letters.len()
        invariant
            i <= letters.len(),
            lv == letters.deep_view(),
            alike == forall|j: int| 0 <= j < i ==> (#[trigger] lv[j]).1 == lv[0].1,
        decreases letters.len() - i,
    {
        assert(lv[i as int] == letters[i as int].deep_view());
        assert(lv[0] == letters[0].deep_view());
        if letters[i].frequency != letters[0].frequency {
            alike = false;
        }
        i += 1;
    }
    assert(alike == all_alike(lv));
    let mut weights: Vec<Distribution> = Vec::new();
    let mut i: usize = 0;
    while i < letters.len()
        invariant
            i <= letters.len(),
            lv == letters.deep_view(),
            alike == all_alike(lv),
            weights.len() == i,
            forall|j: int|
                0 <= j < i ==> (#[trigger] weights[j]).deep_view() == (
                    lv[j].0,
                    weight_at(lv, by_rank@, j),
                ),
        decreases letters.len() - i,
    {
        assert(lv[i as int] == letters[i as int].deep_view());
        let weight = if !alike {
            letters[i].frequency
        } else if i < by_rank.len() {
            by_rank[i]
        } else {
            0
        };
        weights.push((letters[i].letter.clone(), weight));
        i += 1;
    }
    assert(weights.deep_view() =~= weighted(lv, by_rank@));
    weights
}

fn compile_rules(classes: &Vec<Class>, rules: &Vec<TransformationRule>) -> (made: Vec<Rule>)
    ensures
        made.deep_view() == Seq::new(
            rules.deep_view().len(),
            |i: int| compiled_rule(classes.deep_view(), rules.deep_view()[i]),
        ),
{
    let ghost rv = rules.deep_view();
    let mut made: Vec<Rule> = Vec::new();
    let mut i: usize = 0;
    while i < rules.len()
        invariant
            i <= rules.len(),
            rv == rules.deep_view(),
            made.len() == i,
            forall|j: int|
                0 <= j < i ==> (#[trigger] made[j]).deep_view() == compiled_rule(
                    classes.deep_view(),
                    rv[j],
                ),
        decreases rules.len() - i,
    {
        assert(rv[i as int] == rules[i as int].deep_view());
        let rule = &rules[i];
        let name = rule.to_string();
        let made_rule = match rule {
            TransformationRule::SoundRule { .. } => Rule::SoundRule {
                name,
                regex: rule_to_regex(classes, rule),
                replacement: rule.output(),
            },
            TransformationRule::PhonemeRule { .. } => {
                let input = rule.input();
                Rule::PhonemeRule {
                    name,
                    phoneme_differences: rule_to_phoneme_differences(
                        classes,
                        input.as_str(),
                        rule.output(),
                    ),
                }
            },
        };
        made.push(made_rule);
        i += 1;
    }
    assert(made.deep_view() =~= Seq::new(
        rv.len(),
        |i: int| compiled_rule(classes.deep_view(), rv[i]),
    ));
    made
}

impl SoundSystem {
    /// Makes the sound system that a description stands for. `by_rank`
    /// gives the weights by place for a description that gives no weights of
    /// its own.
    pub fn compile(ast: Ast, by_rank: &Vec<u64>) -> (system: SoundSystem)
        ensures
            system@ == compiled(ast.deep_view(), by_rank@),
    {
        let ghost view = ast.deep_view();
        let distribution = frequency(&ast.letters, by_rank);
        let mut table = seed(&ast.letters);
        enter_phonemes(&mut table, &ast.phonemes);
        proof {
            lemma_seeded(view.letters, view.letters.len() as int);
            lemma_with_phonemes(
                seeded(view.letters, view.letters.len() as int),
                view.phonemes,
                view.phonemes.len() as int,
            );
        }
        let mut classes = infer_classes(&ast.letters, &table);
        proof {
            lemma_with_classes(classes.deep_view(), view.classes, view.classes.len() as int);
        }
        put_classes(&mut classes, &ast.classes);
        let Ast { syllables, rules, .. } = ast;
        let made = compile_rules(&classes, &rules);
        let system = SoundSystem::assemble(classes, table, syllables, distribution, made);
        assert(system@.rules =~= compiled(view, by_rank@).rules);
        system
    }
}

} // verus!
