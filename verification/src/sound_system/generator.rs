//! Making up words.
//!
//! A word is one syllable or several; a syllable follows one of the shapes
//! of the system, a shape being a row of class names; for each name a letter
//! of that class is drawn, with the chance that its weight gives it. A name
//! that ends in `?` is an optional slot: its letter is drawn every other
//! time.
use super::class_table::{find_class, index_of, letters_of, position};
use super::distribution::{
    landing, lemma_landing_from, power_law, random_below, random_bool, select_at, sum_of_weights,
    total_weight,
};
use super::system::{SoundSystem, SoundSystemView};
use super::types::{Class, ClassesView, Distribution, MonoSyllableRepartition};
use crate::text::chars_of;
use vstd::prelude::*;
use vstd::string::StringExecFns;

verus! {

/// The chance, in hundredths, with which the choice of a syllable shape
/// stops at each shape in turn: the fewer shapes, the higher.
pub open spec fn drop_of(shapes: int) -> int {
    if 60 - 5 * shapes > 12 {
        60 - 5 * shapes
    } else {
        12
    }
}

/// A class name without the marks `?` at its end.
pub open spec fn trimmed(name: Seq<char>) -> Seq<char>
    decreases name.len(),
{
    if name.len() > 0 && name.last() == '?' {
        trimmed(name.drop_last())
    } else {
        name
    }
}

/// Whether a class name stands for an optional slot.
pub open spec fn is_optional(name: Seq<char>) -> bool {
    name.len() > 0 && name.last() == '?'
}

/// Those of the first `upto` weighted letters that belong to `letters`, in
/// order.
pub open spec fn filtered(
    distribution: Seq<(Seq<char>, u64)>,
    letters: Seq<Seq<char>>,
    upto: int,
) -> Seq<(Seq<char>, u64)>
    decreases upto,
{
    if upto <= 0 || upto > distribution.len() {
        Seq::empty()
    } else {
        let before = filtered(distribution, letters, upto - 1);
        if index_of(letters, distribution[upto - 1].0) is Some {
            before.push(distribution[upto - 1])
        } else {
            before
        }
    }
}

/// The weighted letters of the class `name`; none if the class is not
/// declared.
pub open spec fn letters_for(
    distribution: Seq<(Seq<char>, u64)>,
    classes: ClassesView,
    name: Seq<char>,
) -> Seq<(Seq<char>, u64)> {
    match letters_of(classes, name) {
        Some(letters) => filtered(distribution, letters, distribution.len() as int),
        None => Seq::empty(),
    }
}

/// The letters at the given places of a distribution, one after another.
pub open spec fn strung(distribution: Seq<(Seq<char>, u64)>, places: Seq<int>) -> Seq<char>
    decreases places.len(),
{
    if places.len() == 0 {
        Seq::empty()
    } else {
        strung(distribution, places.drop_last()) + distribution[places.last()].0
    }
}

/// Whether all the places are places of the distribution.
pub open spec fn within(distribution: Seq<(Seq<char>, u64)>, places: Seq<int>) -> bool {
    forall|i: int| 0 <= i < places.len() ==> 0 <= #[trigger] places[i] < distribution.len()
}

/// Whether a word is made of letters of the distribution and nothing else.
pub open spec fn made_of(word: Seq<char>, distribution: Seq<(Seq<char>, u64)>) -> bool {
    exists|places: Seq<int>| within(distribution, places) && strung(distribution, places) == word
}

/// Whether no word occurs twice.
pub open spec fn all_different(words: Seq<Seq<char>>) -> bool {
    forall|i: int, j: int| 0 <= i < j < words.len() ==> #[trigger] words[i] != #[trigger] words[j]
}

/// The number of syllables of a word: one, if a draw out of a hundred falls
/// below the share of words with a single syllable; else two and as many
/// more as `extra` says.
pub open spec fn syllables_for(percentage: int, drawn: int, extra: int) -> int {
    if percentage >= 100 || drawn < percentage {
        1
    } else {
        2 + extra
    }
}

/// The words with one more, unless it is among them already.
pub open spec fn kept(words: Seq<Seq<char>>, word: Seq<char>) -> Seq<Seq<char>> {
    if words.contains(word) {
        words
    } else {
        words.push(word)
    }
}

/// What is drawn for one slot: whether the slot is taken, which counts for
/// an optional slot only, and the number that chooses the letter.
pub type Draw = (bool, u128);

/// What one slot gives: nothing, where its class has no letters or the slot
/// is optional and not taken; else the letter that the number drawn falls
/// on.
pub open spec fn slot_text(letters: Seq<(Seq<char>, u64)>, optional: bool, draw: Draw) -> Seq<char> {
    if letters.len() == 0 || (optional && !draw.0) {
        Seq::empty()
    } else {
        letters[landing(letters, draw.1 as int)].0
    }
}

/// What was drawn for the slot in the place `i`; where nothing was drawn the
/// slot counts as taken and the number as zero.
pub open spec fn draw_at(draws: Seq<Draw>, i: int) -> Draw {
    if 0 <= i < draws.len() {
        draws[i]
    } else {
        (true, 0u128)
    }
}

/// The weighted letters that the slot in the place `i` of a shape chooses
/// from: those of the class that the slot names.
pub open spec fn slot_letters(
    distribution: Seq<(Seq<char>, u64)>,
    classes: ClassesView,
    shape: Seq<Seq<char>>,
    i: int,
) -> Seq<(Seq<char>, u64)> {
    letters_for(distribution, classes, trimmed(shape[i]))
}

/// What the first `upto` slots of a shape give with the given draws, one
/// after another.
pub open spec fn syllable_text(
    distribution: Seq<(Seq<char>, u64)>,
    classes: ClassesView,
    shape: Seq<Seq<char>>,
    draws: Seq<Draw>,
    upto: int,
) -> Seq<char>
    decreases upto,
{
    if upto <= 0 || upto > shape.len() {
        Seq::empty()
    } else {
        syllable_text(distribution, classes, shape, draws, upto - 1) + slot_text(
            slot_letters(distribution, classes, shape, upto - 1),
            is_optional(shape[upto - 1]),
            draw_at(draws, upto - 1),
        )
    }
}

/// Whether the draws are such as the generator makes for a shape: one for
/// each slot, its number below the sum of the weights that the slot chooses
/// from, or zero where that sum is zero.
pub open spec fn fair(
    distribution: Seq<(Seq<char>, u64)>,
    classes: ClassesView,
    shape: Seq<Seq<char>>,
    draws: Seq<Draw>,
) -> bool {
    &&& draws.len() == shape.len()
    &&& forall|i: int|
        0 <= i < shape.len() ==> (#[trigger] draws[i]).1 < total_weight(
            slot_letters(distribution, classes, shape, i),
        ) || (draws[i].1 == 0 && total_weight(slot_letters(distribution, classes, shape, i)) == 0)
}

/// Whether a text is a syllable of the system: what one of its shapes gives
/// with some fair draws. A system without shapes has the empty syllable
/// only.
pub open spec fn is_syllable(text: Seq<char>, system: SoundSystemView) -> bool {
    if system.syllables.len() == 0 {
        text.len() == 0
    } else {
        exists|k: int, draws: Seq<Draw>|
            0 <= k < system.syllables.len() && fair(
                system.distribution,
                system.classes,
                system.syllables[k],
                draws,
            ) && text == #[trigger] syllable_text(
                system.distribution,
                system.classes,
                system.syllables[k],
                draws,
                system.syllables[k].len() as int,
            )
    }
}

/// The texts one after another.
pub open spec fn run_together(parts: Seq<Seq<char>>) -> Seq<char>
    decreases parts.len(),
{
    if parts.len() == 0 {
        Seq::empty()
    } else {
        run_together(parts.drop_last()) + parts.last()
    }
}

/// Whether every text is a syllable of the system.
pub open spec fn all_syllables(parts: Seq<Seq<char>>, system: SoundSystemView) -> bool {
    forall|i: int| 0 <= i < parts.len() ==> is_syllable(#[trigger] parts[i], system)
}

/// Whether a word is made of syllables of the system, `least` of them at
/// least and `most` at most.
pub open spec fn is_word(word: Seq<char>, system: SoundSystemView, least: int, most: int) -> bool {
    exists|parts: Seq<Seq<char>>|
        least <= parts.len() <= most && all_syllables(parts, system) && word
            == #[trigger] run_together(parts)
}

/// Whether every word is made of syllables of the system, `least` of them at
/// least and `most` at most.
pub open spec fn all_words(
    words: Seq<Seq<char>>,
    system: SoundSystemView,
    least: int,
    most: int,
) -> bool {
    forall|i: int| 0 <= i < words.len() ==> is_word(#[trigger] words[i], system, least, most)
}

/// The most syllables that a word has: one where every word has a single
/// syllable, else five.
pub open spec fn most_syllables(percentage: int) -> int {
    if percentage >= 100 {
        1
    } else {
        5
    }
}

/// A number falls on a place of the letters, if there are any.
pub proof fn lemma_landing_within(letters: Seq<(Seq<char>, u64)>, picked: int)
    requires
        letters.len() > 0,
    ensures
        0 <= landing(letters, picked) < letters.len(),
{
    lemma_landing_from(letters, picked, 0);
}

/// Letters of the distribution one after another are made of letters of the
/// distribution.
pub proof fn lemma_made_of_both(
    distribution: Seq<(Seq<char>, u64)>,
    first: Seq<char>,
    second: Seq<char>,
)
    requires
        made_of(first, distribution),
        made_of(second, distribution),
    ensures
        made_of(first + second, distribution),
{
    let one = choose|places: Seq<int>|
        within(distribution, places) && strung(distribution, places) == first;
    let other = choose|places: Seq<int>|
        within(distribution, places) && strung(distribution, places) == second;
    lemma_strung_add(distribution, one, other);
    assert(within(distribution, one + other)) by {
        assert forall|i: int| 0 <= i < (one + other).len() implies 0 <= #[trigger] (one
            + other)[i] < distribution.len() by {
            if i < one.len() {
                assert((one + other)[i] == one[i]);
            } else {
                assert((one + other)[i] == other[i - one.len()]);
            }
        }
    }
}

/// Nothing is made of letters of the distribution.
pub proof fn lemma_made_of_nothing(distribution: Seq<(Seq<char>, u64)>)
    ensures
        made_of(Seq::<char>::empty(), distribution),
{
    let places = Seq::<int>::empty();
    assert(within(distribution, places));
    assert(strung(distribution, places) =~= Seq::<char>::empty());
}

/// What a slot gives is made of letters of the distribution.
pub proof fn lemma_slot_made_of(
    distribution: Seq<(Seq<char>, u64)>,
    classes: ClassesView,
    name: Seq<char>,
    optional: bool,
    draw: Draw,
)
    ensures
        made_of(slot_text(letters_for(distribution, classes, name), optional, draw), distribution),
{
    let letters = letters_for(distribution, classes, name);
    if letters.len() == 0 || (optional && !draw.0) {
        lemma_made_of_nothing(distribution);
    } else {
        lemma_landing_within(letters, draw.1 as int);
        let at = landing(letters, draw.1 as int);
        match letters_of(classes, name) {
            Some(class) => {
                lemma_filtered(distribution, class, distribution.len() as int, at);
                let place = choose|place: int|
                    0 <= place < distribution.len() && #[trigger] distribution[place]
                        == letters[at];
                let places = seq![place];
                assert(within(distribution, places));
                assert(places.drop_last() =~= Seq::<int>::empty());
                assert(strung(distribution, places.drop_last()) =~= Seq::<char>::empty());
                assert(strung(distribution, places) =~= letters[at].0);
            },
            None => {},
        }
    }
}

/// A syllable is made of letters of the distribution.
pub proof fn lemma_syllable_made_of(
    distribution: Seq<(Seq<char>, u64)>,
    classes: ClassesView,
    shape: Seq<Seq<char>>,
    draws: Seq<Draw>,
    upto: int,
)
    ensures
        made_of(syllable_text(distribution, classes, shape, draws, upto), distribution),
    decreases upto,
{
    if upto <= 0 || upto > shape.len() {
        lemma_made_of_nothing(distribution);
    } else {
        lemma_syllable_made_of(distribution, classes, shape, draws, upto - 1);
        lemma_slot_made_of(
            distribution,
            classes,
            trimmed(shape[upto - 1]),
            is_optional(shape[upto - 1]),
            draw_at(draws, upto - 1),
        );
        lemma_made_of_both(
            distribution,
            syllable_text(distribution, classes, shape, draws, upto - 1),
            slot_text(
                slot_letters(distribution, classes, shape, upto - 1),
                is_optional(shape[upto - 1]),
                draw_at(draws, upto - 1),
            ),
        );
    }
}

/// Whether every slot of a shape gives a letter whatever is drawn: the shape
/// has a slot, no slot is optional, and every slot's class has letters,
/// none of them empty.
pub open spec fn always_filled(
    distribution: Seq<(Seq<char>, u64)>,
    classes: ClassesView,
    shape: Seq<Seq<char>>,
) -> bool {
    &&& shape.len() > 0
    &&& forall|i: int|
        0 <= i < shape.len() ==> !is_optional(#[trigger] shape[i]) && slot_letters(
            distribution,
            classes,
            shape,
            i,
        ).len() > 0
    &&& forall|i: int, j: int|
        0 <= i < shape.len() && 0 <= j < slot_letters(distribution, classes, shape, i).len()
            ==> (#[trigger] slot_letters(distribution, classes, shape, i)[j]).0.len() > 0
}

/// A slot that is taken, of a class that has letters, gives one of the
/// letters of the class.
pub proof fn lemma_slot_gives_letter(letters: Seq<(Seq<char>, u64)>, optional: bool, draw: Draw)
    requires
        letters.len() > 0,
        !optional || draw.0,
    ensures
        0 <= landing(letters, draw.1 as int) < letters.len(),
        slot_text(letters, optional, draw) == letters[landing(letters, draw.1 as int)].0,
{
    lemma_landing_within(letters, draw.1 as int);
}

/// A syllable of a shape whose every slot gives a letter is not empty.
pub proof fn lemma_syllable_not_empty(
    distribution: Seq<(Seq<char>, u64)>,
    classes: ClassesView,
    shape: Seq<Seq<char>>,
    draws: Seq<Draw>,
)
    requires
        always_filled(distribution, classes, shape),
    ensures
        syllable_text(distribution, classes, shape, draws, shape.len() as int).len() > 0,
{
    let last = shape.len() - 1;
    assert(!is_optional(shape[last]));
    let letters = slot_letters(distribution, classes, shape, last);
    lemma_slot_gives_letter(letters, false, draw_at(draws, last));
    assert(letters[landing(letters, draw_at(draws, last).1 as int)].0.len() > 0);
}

/// Where every slot of every shape gives a letter, no word is empty.
pub proof fn lemma_word_not_empty(word: Seq<char>, system: SoundSystemView, most: int)
    requires
        system.syllables.len() > 0,
        forall|k: int|
            0 <= k < system.syllables.len() ==> always_filled(
                system.distribution,
                system.classes,
                #[trigger] system.syllables[k],
            ),
        is_word(word, system, 1, most),
    ensures
        word.len() > 0,
{
    let parts = choose|parts: Seq<Seq<char>>|
        1 <= parts.len() <= most && all_syllables(parts, system) && word
            == #[trigger] run_together(parts);
    let text = parts.last();
    assert(is_syllable(text, system));
    let (k, draws) = choose|k: int, draws: Seq<Draw>|
        0 <= k < system.syllables.len() && fair(
            system.distribution,
            system.classes,
            system.syllables[k],
            draws,
        ) && text == #[trigger] syllable_text(
            system.distribution,
            system.classes,
            system.syllables[k],
            draws,
            system.syllables[k].len() as int,
        );
    lemma_syllable_not_empty(system.distribution, system.classes, system.syllables[k], draws);
}

/// Every letter that the filter lets through is a letter of the
/// distribution.
pub proof fn lemma_filtered(
    distribution: Seq<(Seq<char>, u64)>,
    letters: Seq<Seq<char>>,
    upto: int,
    at: int,
)
    requires
        0 <= upto <= distribution.len(),
        0 <= at < filtered(distribution, letters, upto).len(),
    ensures
        exists|place: int|
            0 <= place < upto && #[trigger] distribution[place] == filtered(
                distribution,
                letters,
                upto,
            )[at],
    decreases upto,
{
    if upto > 0 {
        let before = filtered(distribution, letters, upto - 1);
        if at < before.len() {
            lemma_filtered(distribution, letters, upto - 1, at);
            let place = choose|place: int|
                0 <= place < upto - 1 && #[trigger] distribution[place] == before[at];
            assert(distribution[place] == filtered(distribution, letters, upto)[at]);
        } else {
            assert(distribution[upto - 1] == filtered(distribution, letters, upto)[at]);
        }
    }
}

/// Places strung one after another spell what the two rows of places spell,
/// one after the other.
pub proof fn lemma_strung_add(
    distribution: Seq<(Seq<char>, u64)>,
    first: Seq<int>,
    second: Seq<int>,
)
    ensures
        strung(distribution, first + second) == strung(distribution, first) + strung(
            distribution,
            second,
        ),
    decreases second.len(),
{
    if second.len() == 0 {
        assert(first + second =~= first);
        assert(strung(distribution, first) + strung(distribution, second) =~= strung(
            distribution,
            first,
        ));
    } else {
        lemma_strung_add(distribution, first, second.drop_last());
        assert((first + second).drop_last() =~= first + second.drop_last());
        assert((first + second).last() == second.last());
        assert(strung(distribution, first + second) =~= strung(distribution, first) + strung(
            distribution,
            second,
        ));
    }
}

/// The chance, in hundredths, with which the choice of a syllable shape
/// stops at each shape in turn.
pub fn syllable_drop(number_of_syllables: usize) -> (hundredths: u32)
    ensures
        hundredths == drop_of(number_of_syllables as int),
        12 <= hundredths <= 60,
{
    if number_of_syllables < 10 {
        let drop: u32 = 60 - 5 * (number_of_syllables as u32);
        if drop > 12 {
            drop
        } else {
            12
        }
    } else {
        12
    }
}

fn trim(name: &str) -> (parts: (String, bool))
    ensures
        parts.0@ == trimmed(name@),
        parts.1 == is_optional(name@),
{
    let chars = chars_of(name);
    let optional = chars.len() > 0 && chars[chars.len() - 1] == '?';
    let mut end: usize = chars.len();
    assert(chars@.take(chars.len() as int) =~= chars@);
    while end > 0 && chars[end - 1] == '?'
        invariant
            end <= chars.len(),
            trimmed(chars@) == trimmed(chars@.take(end as int)),
        decreases end,
    {
        assert(chars@.take(end as int).drop_last() =~= chars@.take(end - 1));
        end -= 1;
    }
    let mut text = String::new();
    let mut i: usize = 0;
    while i < end
        invariant
            i <= end <= chars.len(),
            text@ == chars@.take(i as int),
        decreases end - i,
    {
        text.push(chars[i]);
        assert(text@ =~= chars@.take(i + 1));
        i += 1;
    }
    (text, optional)
}

fn filter(distribution: &Vec<Distribution>, letters: &Vec<String>) -> (kept: Vec<Distribution>)
    ensures
        kept.deep_view() == filtered(
            distribution.deep_view(),
            letters.deep_view(),
            distribution.len() as int,
        ),
{
    let ghost dv = distribution.deep_view();
    let mut kept: Vec<Distribution> = Vec::new();
    let mut i: usize = 0;
    assert(kept.deep_view() =~= filtered(dv, letters.deep_view(), 0));
    while i < distribution.len()
        invariant
            i <= distribution.len(),
            dv == distribution.deep_view(),
            kept.deep_view() == filtered(dv, letters.deep_view(), i as int),
        decreases distribution.len() - i,
    {
        assert(dv[i as int] == distribution[i as int].deep_view());
        let ghost before = kept.deep_view();
        if position(letters, distribution[i].0.as_str()).is_some() {
            kept.push((distribution[i].0.clone(), distribution[i].1));
            assert(kept.deep_view() =~= before.push(dv[i as int]));
        }
        i += 1;
    }
    kept
}

/// The weighted letters of the class `name`; none if the class is not
/// declared.
pub fn class_letters(distribution: &Vec<Distribution>, classes: &Vec<Class>, name: &str) -> (letters:
    Vec<Distribution>)
    ensures
        letters.deep_view() == letters_for(distribution.deep_view(), classes.deep_view(), name@),
{
    match find_class(classes, name) {
        Some(k) => filter(distribution, &classes[k].1),
        None => {
            let none: Vec<Distribution> = Vec::new();
            assert(none.deep_view() =~= Seq::empty());
            none
        },
    }
}

/// The number of syllables of a word, given the draw that decides whether
/// it has more than one and the number of syllables beyond two.
pub fn syllable_count(percentage: u32, drawn: u128, extra: usize) -> (count: usize)
    requires
        extra <= usize::MAX - 2,
    ensures
        count == syllables_for(percentage as int, drawn as int, extra as int),
{
    if percentage >= 100 || drawn < percentage as u128 {
        1
    } else {
        2 + extra
    }
}

/// Adds a word to the words, unless it is among them already.
pub fn keep_word(words: &mut Vec<String>, word: String)
    ensures
        final(words).deep_view() == kept(old(words).deep_view(), word@),
{
    let ghost before = words.deep_view();
    let mut i: usize = 0;
    while i < words.len()
        invariant
            i <= words.len(),
            before == words.deep_view(),
            before == old(words).deep_view(),
            forall|j: int| 0 <= j < i ==> before[j] != word@,
        decreases words.len() - i,
    {
        assert(before[i as int] == words[i as int]@);
        if words[i] == word {
            assert(before.contains(word@));
            return ;
        }
        i += 1;
    }
    assert(!before.contains(word@));
    let ghost added = word@;
    words.push(word);
    assert(words.deep_view() =~= before.push(added));
}

/// Keeping a word leaves the words different from one another.
pub proof fn lemma_kept(words: Seq<Seq<char>>, word: Seq<char>)
    requires
        all_different(words),
    ensures
        all_different(kept(words, word)),
        kept(words, word).len() >= 1,
        words.len() <= kept(words, word).len() <= words.len() + 1,
{
    let after = kept(words, word);
    if !words.contains(word) {
        assert forall|i: int, j: int| 0 <= i < j < after.len() implies #[trigger] after[i]
            != #[trigger] after[j] by {
            if j == words.len() {
                assert(after[i] == words[i]);
                assert(words.contains(words[i]));
            } else {
                assert(after[i] == words[i]);
                assert(after[j] == words[j]);
            }
        }
    }
}

/// The weighted letters of each class that has been asked for, by name.
struct Cache {
    entries: Vec<(String, Vec<Distribution>)>,
}

impl Cache {
    spec fn holds(self, distribution: Seq<(Seq<char>, u64)>, classes: ClassesView) -> bool {
        forall|i: int|
            0 <= i < self.entries.len() ==> (#[trigger] self.entries[i]).1.deep_view()
                == letters_for(distribution, classes, self.entries[i].0@)
    }

    fn find(
        &mut self,
        distribution: &Vec<Distribution>,
        classes: &Vec<Class>,
        name: &String,
    ) -> (at: usize)
        requires
            old(self).holds(distribution.deep_view(), classes.deep_view()),
        ensures
            final(self).holds(distribution.deep_view(), classes.deep_view()),
            at < final(self).entries.len(),
            final(self).entries[at as int].1.deep_view() == letters_for(
                distribution.deep_view(),
                classes.deep_view(),
                name@,
            ),
    {
        let mut i: usize = 0;
        while i < self.entries.len()
            invariant
                i <= self.entries.len(),
                self.holds(distribution.deep_view(), classes.deep_view()),
                *self == *old(self),
            decreases self.entries.len() - i,
        {
            if self.entries[i].0 == *name {
                return i;
            }
            i += 1;
        }
        let letters = class_letters(distribution, classes, name.as_str());
        self.entries.push((name.clone(), letters));
        self.entries.len() - 1
    }
}

/// What one slot gives, with what was drawn for it.
pub fn slot_letter(letters: &Vec<Distribution>, optional: bool, draw: Draw) -> (text: String)
    ensures
        text@ == slot_text(letters.deep_view(), optional, draw),
{
    if letters.len() == 0 || (optional && !draw.0) {
        String::new()
    } else {
        String::from_str(select_at(letters, draw.1))
    }
}

fn build_syllable(
    distribution: &Vec<Distribution>,
    classes: &Vec<Class>,
    cache: &mut Cache,
    shape: &Vec<String>,
    draws: &Vec<Draw>,
) -> (text: String)
    requires
        old(cache).holds(distribution.deep_view(), classes.deep_view()),
    ensures
        final(cache).holds(distribution.deep_view(), classes.deep_view()),
        text@ == syllable_text(
            distribution.deep_view(),
            classes.deep_view(),
            shape.deep_view(),
            draws@,
            shape.len() as int,
        ),
{
    let ghost dv = distribution.deep_view();
    let ghost cv = classes.deep_view();
    let ghost sv = shape.deep_view();
    let mut text = String::new();
    let mut n: usize = 0;
    while n < shape.len()
        invariant
            n <= shape.len(),
            dv == distribution.deep_view(),
            cv == classes.deep_view(),
            sv == shape.deep_view(),
            cache.holds(dv, cv),
            text@ == syllable_text(dv, cv, sv, draws@, n as int),
        decreases shape.len() - n,
    {
        assert(sv[n as int] == shape[n as int]@);
        let (name, optional) = trim(shape[n].as_str());
        let at = cache.find(distribution, classes, &name);
        let draw = if n < draws.len() {
            draws[n]
        } else {
            (true, 0u128)
        };
        let letter = slot_letter(&cache.entries[at].1, optional, draw);
        text.append(letter.as_str());
        n += 1;
    }
    text
}

/// The syllable that a shape gives with the given draws, one for each slot:
/// for each slot the letter of its class that the number drawn falls on,
/// and nothing for a class without letters or an optional slot that is not
/// taken.
pub fn syllable_from(
    distribution: &Vec<Distribution>,
    classes: &Vec<Class>,
    shape: &Vec<String>,
    draws: &Vec<Draw>,
) -> (text: String)
    ensures
        text@ == syllable_text(
            distribution.deep_view(),
            classes.deep_view(),
            shape.deep_view(),
            draws@,
            shape.len() as int,
        ),
{
    let mut cache = Cache { entries: Vec::new() };
    build_syllable(distribution, classes, &mut cache, shape, draws)
}

impl SoundSystem {
    /// One syllable: a shape is chosen, for each of its slots a draw is
    /// made, and the syllable is what the shape gives with these draws.
    fn syllable(&self, cache: &mut Cache) -> (text: String)
        requires
            old(cache).holds(self@.distribution, self@.classes),
        ensures
            final(cache).holds(self@.distribution, self@.classes),
            is_syllable(text@, self@),
            made_of(text@, self@.distribution),
    {
        let shapes = self.syllables();
        let distribution = self.distribution();
        let classes = self.classes();
        let ghost dv = distribution.deep_view();
        let ghost cv = classes.deep_view();
        if shapes.len() == 0 {
            proof {
                lemma_made_of_nothing(dv);
            }
            return String::new();
        }
        let index = power_law(shapes.len(), syllable_drop(shapes.len()));
        let shape = &shapes[index];
        let ghost sv = shape.deep_view();
        assert(self@.syllables[index as int] == sv);
        let mut draws: Vec<Draw> = Vec::new();
        let mut n: usize = 0;
        while n < shape.len()
            invariant
                n <= shape.len(),
                dv == distribution.deep_view(),
                cv == classes.deep_view(),
                sv == shape.deep_view(),
                cache.holds(dv, cv),
                draws.len() == n,
                forall|i: int|
                    0 <= i < n ==> (#[trigger] draws@[i]).1 < total_weight(
                        slot_letters(dv, cv, sv, i),
                    ) || (draws@[i].1 == 0 && total_weight(slot_letters(dv, cv, sv, i)) == 0),
            decreases shape.len() - n,
        {
            assert(sv[n as int] == shape[n as int]@);
            let (name, optional) = trim(shape[n].as_str());
            let at = cache.find(distribution, classes, &name);
            let letters = &cache.entries[at].1;
            let sum = sum_of_weights(letters);
            let taken = if optional && letters.len() > 0 {
                random_bool()
            } else {
                true
            };
            let picked = if sum > 0 {
                random_below(sum)
            } else {
                0
            };
            draws.push((taken, picked));
            n += 1;
        }
        let text = build_syllable(distribution, classes, cache, shape, &draws);
        proof {
            assert(fair(dv, cv, sv, draws@));
            lemma_syllable_made_of(dv, cv, sv, draws@, sv.len() as int);
        }
        text
    }

    /// Makes up words: `number` times a word is made, and kept unless the
    /// same word was made before, so that fewer words than `number` may come
    /// back. A word has one syllable, or, with the chance that `repartition`
    /// leaves, two to five; with a `repartition` of a hundred in a hundred
    /// every word has one.
    pub fn generate_words(&self, number: usize, repartition: MonoSyllableRepartition) -> (words:
        Vec<String>)
        ensures
            words.len() <= number,
            number > 0 ==> words.len() >= 1,
            all_different(words.deep_view()),
            all_words(words.deep_view(), self@, 1, most_syllables(repartition.percentage())),
            forall|i: int|
                0 <= i < words.len() ==> made_of(#[trigger] words.deep_view()[i], self@.distribution),
    {
        let ghost dv = self@.distribution;
        let mut words: Vec<String> = Vec::new();
        let mut cache = Cache { entries: Vec::new() };
        let percentage = repartition.into_percentage();
        let ghost most = most_syllables(repartition.percentage());
        let mut made: usize = 0;
        while made < number
            invariant
                made <= number,
                words.len() <= made,
                made > 0 ==> words.len() >= 1,
                dv == self@.distribution,
                percentage == repartition.percentage(),
                most == most_syllables(repartition.percentage()),
                cache.holds(dv, self@.classes),
                all_different(words.deep_view()),
                all_words(words.deep_view(), self@, 1, most),
                forall|i: int| 0 <= i < words.len() ==> made_of(#[trigger] words.deep_view()[i], dv),
            decreases number - made,
        {
            let number_of_syllables = if percentage < 100 {
                let drawn = random_below(100);
                let extra = if drawn < percentage as u128 {
                    0
                } else {
                    power_law(4, 50)
                };
                syllable_count(percentage, drawn, extra)
            } else {
                1
            };
            assert(1 <= number_of_syllables <= most);
            let mut word = String::new();
            let ghost mut parts: Seq<Seq<char>> = Seq::empty();
            let mut s: usize = 0;
            proof {
                lemma_made_of_nothing(dv);
            }
            while s < number_of_syllables
                invariant
                    s <= number_of_syllables,
                    dv == self@.distribution,
                    cache.holds(dv, self@.classes),
                    parts.len() == s,
                    all_syllables(parts, self@),
                    word@ == run_together(parts),
                    made_of(word@, dv),
                decreases number_of_syllables - s,
            {
                let syllable = self.syllable(&mut cache);
                proof {
                    lemma_made_of_both(dv, word@, syllable@);
                    let longer = parts.push(syllable@);
                    assert(longer.drop_last() =~= parts);
                    assert forall|i: int| 0 <= i < longer.len() implies is_syllable(
                        #[trigger] longer[i],
                        self@,
                    ) by {
                        if i < parts.len() {
                            assert(longer[i] == parts[i]);
                        }
                    }
                    parts = longer;
                }
                word.append(syllable.as_str());
                s += 1;
            }
            assert(is_word(word@, self@, 1, most));
            let ghost before = words.deep_view();
            proof {
                lemma_kept(before, word@);
            }
            keep_word(&mut words, word);
            assert forall|i: int| 0 <= i < words.len() implies made_of(
                #[trigger] words.deep_view()[i],
                dv,
            ) && is_word(words.deep_view()[i], self@, 1, most) by {
                if i < before.len() {
                    assert(words.deep_view()[i] == before[i]);
                }
            }
            made += 1;
        }
        words
    }
}

} // verus!
