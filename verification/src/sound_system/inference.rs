//! The classes that follow from the phones of the letters.
//!
//! Every declared letter whose first pronunciation begins with a consonant
//! or a vowel is put into the classes of that phone. The letters are taken
//! from the highest phone to the lowest, so that a class of voiceless
//! consonants and the class of their voiced counterparts list their letters
//! in the same order. Letters of the same phone keep the order of the table.
use super::class_table::{declared_before, find_class, lemma_declared_before, named_once};
use super::phone::classes::{class_names, spelled};
use super::phone::ordering::{
    lemma_above_is_strict, lemma_above_is_total, lemma_above_is_transitive, stands_above,
};
use super::phone::Phone;
use super::types::{Class, ClassesView, Phoneme, PhonemeView};
use crate::wgl::Letter;
use vstd::prelude::*;

verus! {

/// The first place at or after `from` at which `letter` is declared, or the
/// number of declarations.
pub open spec fn declaration_from(letters: Seq<(Seq<char>, u64)>, letter: Seq<char>, from: int) -> int
    decreases letters.len() - from,
{
    if from < 0 || from >= letters.len() {
        letters.len() as int
    } else if letters[from].0 == letter {
        from
    } else {
        declaration_from(letters, letter, from + 1)
    }
}

/// Whether `letter` is declared.
pub open spec fn is_declared(letters: Seq<(Seq<char>, u64)>, letter: Seq<char>) -> bool {
    declaration_from(letters, letter, 0) < letters.len()
}

/// The phone that decides the classes of an entry's letter: the first phone
/// of its first pronunciation, if that is a consonant or a vowel.
pub open spec fn deciding_phone(entry: PhonemeView) -> Option<Phone> {
    if entry.1.len() > 0 && entry.1[0].0.len() > 0 && !(entry.1[0].0[0] is Diacritic) {
        Some(entry.1[0].0[0])
    } else {
        None
    }
}

/// The declared letters among the first `upto` entries of the table that
/// have a deciding phone, each with that phone, in the order of the table.
pub open spec fn candidates(
    letters: Seq<(Seq<char>, u64)>,
    table: Seq<PhonemeView>,
    upto: int,
) -> Seq<(Seq<char>, Phone)>
    decreases upto,
{
    if upto <= 0 || upto > table.len() {
        Seq::empty()
    } else {
        let before = candidates(letters, table, upto - 1);
        let entry = table[upto - 1];
        if is_declared(letters, entry.0) && deciding_phone(entry) is Some {
            before.push((entry.0, deciding_phone(entry)->0))
        } else {
            before
        }
    }
}

/// The first place at or after `from` whose phone stands below `phone`, or
/// the length of the list.
pub open spec fn slot_below(sorted: Seq<(Seq<char>, Phone)>, phone: Phone, from: int) -> int
    decreases sorted.len() - from,
{
    if from < 0 || from >= sorted.len() {
        sorted.len() as int
    } else if stands_above(phone, sorted[from].1) {
        from
    } else {
        slot_below(sorted, phone, from + 1)
    }
}

/// The first `upto` items, the highest phone first; items of the same phone
/// in the order in which they came.
pub open spec fn ranked(items: Seq<(Seq<char>, Phone)>, upto: int) -> Seq<(Seq<char>, Phone)>
    decreases upto,
{
    if upto <= 0 || upto > items.len() {
        Seq::empty()
    } else {
        let before = ranked(items, upto - 1);
        before.insert(slot_below(before, items[upto - 1].1, 0), items[upto - 1])
    }
}

/// The classes with `letter` added to the class `name`: at the end of the
/// class if it is declared, as its first letter if it is not.
pub open spec fn with_letter(classes: ClassesView, name: Seq<char>, letter: Seq<char>) -> ClassesView {
    let at = declared_before(classes, name, classes.len() as int);
    if at >= 0 {
        classes.update(at, (name, classes[at].1.push(letter)))
    } else {
        classes.push((name, seq![letter]))
    }
}

/// The classes with `letter` added to the classes named by the first `upto`
/// of the given one-letter names.
pub open spec fn with_letter_in(
    classes: ClassesView,
    names: Seq<char>,
    letter: Seq<char>,
    upto: int,
) -> ClassesView
    decreases upto,
{
    if upto <= 0 || upto > names.len() {
        classes
    } else {
        with_letter(with_letter_in(classes, names, letter, upto - 1), seq![names[upto - 1]], letter)
    }
}

/// The classes that follow from the first `upto` items, taken in order.
pub open spec fn classes_from(items: Seq<(Seq<char>, Phone)>, upto: int) -> ClassesView
    decreases upto,
{
    if upto <= 0 || upto > items.len() {
        Seq::empty()
    } else {
        let before = classes_from(items, upto - 1);
        match class_names(items[upto - 1].1) {
            Some(names) => with_letter_in(before, names, items[upto - 1].0, names.len() as int),
            None => before,
        }
    }
}

/// The classes that follow from the declared letters and the table.
pub open spec fn inferred(letters: Seq<(Seq<char>, u64)>, table: Seq<PhonemeView>) -> ClassesView {
    let found = candidates(letters, table, table.len() as int);
    let sorted = ranked(found, found.len() as int);
    classes_from(sorted, sorted.len() as int)
}

/// No item stands below one that comes after it.
pub open spec fn never_rising(items: Seq<(Seq<char>, Phone)>) -> bool {
    forall|i: int, j: int|
        0 <= i < j < items.len() ==> !stands_above((#[trigger] items[j]).1, (#[trigger] items[i]).1)
}

/// Where `slot_below` points, a lower phone stands, and none before.
pub proof fn lemma_slot_below(sorted: Seq<(Seq<char>, Phone)>, phone: Phone, from: int)
    requires
        0 <= from <= sorted.len(),
    ensures
        from <= slot_below(sorted, phone, from) <= sorted.len(),
        slot_below(sorted, phone, from) < sorted.len() ==> stands_above(
            phone,
            sorted[slot_below(sorted, phone, from)].1,
        ),
        forall|k: int|
            from <= k < slot_below(sorted, phone, from) ==> !stands_above(
                phone,
                (#[trigger] sorted[k]).1,
            ),
    decreases sorted.len() - from,
{
    if from < sorted.len() && !stands_above(phone, sorted[from].1) {
        lemma_slot_below(sorted, phone, from + 1);
    }
}

/// Ranking loses nothing and puts the items in order: as many come out as
/// went in, and none stands below one that comes after it.
pub proof fn lemma_ranked(items: Seq<(Seq<char>, Phone)>, upto: int)
    requires
        0 <= upto <= items.len(),
        forall|i: int| 0 <= i < items.len() ==> !((#[trigger] items[i]).1 is Diacritic),
    ensures
        ranked(items, upto).len() == upto,
        never_rising(ranked(items, upto)),
        forall|i: int|
            0 <= i < upto ==> !((#[trigger] ranked(items, upto)[i]).1 is Diacritic),
        forall|i: int| 0 <= i < upto ==> ranked(items, upto).contains(#[trigger] items[i]),
    decreases upto,
{
    if upto > 0 {
        lemma_ranked(items, upto - 1);
        let before = ranked(items, upto - 1);
        let item = items[upto - 1];
        let slot = slot_below(before, item.1, 0);
        lemma_slot_below(before, item.1, 0);
        let after = ranked(items, upto);
        assert(after == before.insert(slot, item));
        assert forall|i: int, j: int| 0 <= i < j < after.len() implies !stands_above(
            (#[trigger] after[j]).1,
            (#[trigger] after[i]).1,
        ) by {
            if j == slot {
                assert(after[i] == before[i]);
                lemma_above_is_total(item.1, before[i].1);
                lemma_above_is_strict(item.1, before[i].1);
            } else if i == slot {
                assert(after[j] == before[j - 1]);
                lemma_above_is_strict(item.1, before[slot].1);
                if j - 1 > slot {
                    lemma_above_is_total(before[j - 1].1, before[slot].1);
                    if stands_above(before[j - 1].1, item.1) {
                        lemma_above_is_transitive(before[j - 1].1, item.1, before[slot].1);
                    }
                }
            } else {
                let oi = if i < slot {
                    i
                } else {
                    i - 1
                };
                let oj = if j < slot {
                    j
                } else {
                    j - 1
                };
                assert(after[i] == before[oi]);
                assert(after[j] == before[oj]);
            }
        }
        assert forall|i: int| 0 <= i < upto implies !((#[trigger] after[i]).1 is Diacritic) by {
            if i < slot {
                assert(after[i] == before[i]);
            } else if i > slot {
                assert(after[i] == before[i - 1]);
            }
        }
        assert forall|i: int| 0 <= i < upto implies after.contains(#[trigger] items[i]) by {
            if i == upto - 1 {
                assert(after[slot] == items[i]);
            } else {
                assert(before.contains(items[i]));
                let k = choose|k: int| 0 <= k < before.len() && before[k] == items[i];
                assert(after[if k < slot {
                    k
                } else {
                    k + 1
                }] == items[i]);
            }
        }
    }
}

/// Adding a letter to a class keeps every name to one class.
pub proof fn lemma_with_letter(classes: ClassesView, name: Seq<char>, letter: Seq<char>)
    requires
        named_once(classes),
    ensures
        named_once(with_letter(classes, name, letter)),
{
    lemma_declared_before(classes, name, classes.len() as int);
    let after = with_letter(classes, name, letter);
    let at = declared_before(classes, name, classes.len() as int);
    assert forall|i: int, j: int| 0 <= i < j < after.len() implies (#[trigger] after[i]).0
        != (#[trigger] after[j]).0 by {
        if at >= 0 {
            assert(after[i].0 == classes[i].0);
            assert(after[j].0 == classes[j].0);
        } else {
            assert(after[i] == classes[i]);
            if j < classes.len() {
                assert(after[j] == classes[j]);
            } else {
                assert(classes[i].0 != name);
            }
        }
    }
}

/// Adding a letter to several classes keeps every name to one class.
pub proof fn lemma_with_letter_in(
    classes: ClassesView,
    names: Seq<char>,
    letter: Seq<char>,
    upto: int,
)
    requires
        named_once(classes),
    ensures
        named_once(with_letter_in(classes, names, letter, upto)),
    decreases upto,
{
    if 0 < upto <= names.len() {
        lemma_with_letter_in(classes, names, letter, upto - 1);
        lemma_with_letter(
            with_letter_in(classes, names, letter, upto - 1),
            seq![names[upto - 1]],
            letter,
        );
    }
}

/// In the classes that follow from phones every name occurs once.
pub proof fn lemma_classes_from(items: Seq<(Seq<char>, Phone)>, upto: int)
    ensures
        named_once(classes_from(items, upto)),
    decreases upto,
{
    if 0 < upto <= items.len() {
        lemma_classes_from(items, upto - 1);
        match class_names(items[upto - 1].1) {
            Some(names) => {
                lemma_with_letter_in(
                    classes_from(items, upto - 1),
                    names,
                    items[upto - 1].0,
                    names.len() as int,
                );
            },
            None => {},
        }
    }
}

fn declared(letters: &Vec<Letter>, letter: &String) -> (yes: bool)
    ensures
        yes == is_declared(letters.deep_view(), letter@),
{
    let ghost lv = letters.deep_view();
    let mut i: usize = 0;
    while i < letters.len()
        invariant
            i <= letters.len(),
            lv == letters.deep_view(),
            declaration_from(lv, letter@, 0) == declaration_from(lv, letter@, i as int),
        decreases letters.len() - i,
    {
        assert(lv[i as int] == letters[i as int].deep_view());
        if letters[i].letter == *letter {
            return true;
        }
        i += 1;
    }
    false
}

fn decide(entry: &Phoneme) -> (phone: Option<Phone>)
    ensures
        phone == deciding_phone(entry.deep_view()),
{
    if entry.1.len() == 0 {
        return None;
    }
    assert(entry.deep_view().1[0] == entry.1[0].deep_view());
    let first = &entry.1[0].0;
    if first.len() == 0 {
        return None;
    }
    assert(first.deep_view()[0] == first[0]);
    match first[0] {
        Phone::Diacritic(_) => None,
        phone => Some(phone),
    }
}

fn find_candidates(letters: &Vec<Letter>, table: &Vec<Phoneme>) -> (found: Vec<(String, Phone)>)
    ensures
        found.deep_view() == candidates(
            letters.deep_view(),
            table.deep_view(),
            table.len() as int,
        ),
{
    let ghost tv = table.deep_view();
    let mut found: Vec<(String, Phone)> = Vec::new();
    let mut k: usize = 0;
    assert(found.deep_view() =~= candidates(letters.deep_view(), tv, 0));
    while k < table.len()
        invariant
            k <= table.len(),
            tv == table.deep_view(),
            found.deep_view() == candidates(letters.deep_view(), tv, k as int),
        decreases table.len() - k,
    {
        assert(tv[k as int] == table[k as int].deep_view());
        let ghost before = found.deep_view();
        if declared(letters, &table[k].0) {
            match decide(&table[k]) {
                Some(phone) => {
                    found.push((table[k].0.clone(), phone));
                    assert(found.deep_view() =~= before.push((tv[k as int].0, phone)));
                },
                None => {},
            }
        }
        k += 1;
    }
    found
}

fn rank(items: &Vec<(String, Phone)>) -> (sorted: Vec<(String, Phone)>)
    ensures
        sorted.deep_view() == ranked(items.deep_view(), items.len() as int),
{
    let ghost iv = items.deep_view();
    let mut sorted: Vec<(String, Phone)> = Vec::new();
    let mut n: usize = 0;
    assert(sorted.deep_view() =~= ranked(iv, 0));
    while n < items.len()
        invariant
            n <= items.len(),
            iv == items.deep_view(),
            sorted.deep_view() == ranked(iv, n as int),
        decreases items.len() - n,
    {
        assert(iv[n as int] == items[n as int].deep_view());
        let ghost before = sorted.deep_view();
        let phone = items[n].1;
        let mut slot: usize = 0;
        while slot < sorted.len() && !phone.is_above(sorted[slot].1)
            invariant
                slot <= sorted.len(),
                before == sorted.deep_view(),
                slot_below(before, phone, 0) == slot_below(before, phone, slot as int),
            decreases sorted.len() - slot,
        {
            assert(before[slot as int] == sorted[slot as int].deep_view());
            slot += 1;
        }
        assert(slot < sorted.len() ==> before[slot as int] == sorted[slot as int].deep_view());
        sorted.insert(slot, (items[n].0.clone(), phone));
        assert(sorted.deep_view() =~= before.insert(slot as int, iv[n as int]));
        n += 1;
    }
    sorted
}

fn add_letter(classes: &mut Vec<Class>, name: &str, letter: &String)
    ensures
        final(classes).deep_view() == with_letter(old(classes).deep_view(), name@, letter@),
{
    let ghost before = classes.deep_view();
    match find_class(classes, name) {
        Some(at) => {
            let ghost had = classes[at as int].1.deep_view();
            assert(before[at as int] == classes[at as int].deep_view());
            let mut letters: Vec<String> = Vec::new();
            std::mem::swap(&mut letters, &mut classes[at].1);
            letters.push(letter.clone());
            assert(letters.deep_view() =~= had.push(letter@));
            classes[at] = (String::from_str(name), letters);
            assert(classes.deep_view() =~= before.update(at as int, (name@, had.push(letter@))));
        },
        None => {
            let mut letters: Vec<String> = Vec::new();
            letters.push(letter.clone());
            assert(letters.deep_view() =~= seq![letter@]);
            classes.push((String::from_str(name), letters));
            assert(classes.deep_view() =~= before.push((name@, seq![letter@])));
        },
    }
}

/// The classes that follow from the declared letters and the table of
/// pronunciations.
pub fn infer_classes(letters: &Vec<Letter>, table: &Vec<Phoneme>) -> (classes: Vec<Class>)
    ensures
        classes.deep_view() == inferred(letters.deep_view(), table.deep_view()),
        named_once(classes.deep_view()),
{
    let found = find_candidates(letters, table);
    let sorted = rank(&found);
    let ghost sv = sorted.deep_view();
    let mut classes: Vec<Class> = Vec::new();
    let mut n: usize = 0;
    assert(classes.deep_view() =~= classes_from(sv, 0));
    while n < sorted.len()
        invariant
            n <= sorted.len(),
            sv == sorted.deep_view(),
            classes.deep_view() == classes_from(sv, n as int),
        decreases sorted.len() - n,
    {
        assert(sv[n as int] == sorted[n as int].deep_view());
        let ghost before = classes.deep_view();
        match sorted[n].1.classes() {
            Some(names) => {
                let ghost tags = class_names(sorted[n as int].1)->0;
                let mut i: usize = 0;
                while i < names.len()
                    invariant
                        i <= names.len(),
                        n < sorted.len(),
                        sv == sorted.deep_view(),
                        sv[n as int] == sorted[n as int].deep_view(),
                        spelled(names@, tags),
                        classes.deep_view() == with_letter_in(before, tags, sv[n as int].0, i as int),
                    decreases names.len() - i,
                {
                    assert(names@[i as int]@ == seq![tags[i as int]]);
                    add_letter(&mut classes, names[i], &sorted[n].0);
                    i += 1;
                }
            },
            None => {},
        }
        n += 1;
    }
    proof {
        lemma_classes_from(sv, sv.len() as int);
    }
    classes
}

} // verus!
