//! Classes by name. A class that is declared again takes the place of the
//! one that had its name, so that in a list built here every name occurs
//! once. In a list that was put together otherwise the last declaration of a
//! name counts.
use super::types::{Class, ClassesView};
use crate::text::clone_strings;
use vstd::prelude::*;

verus! {

/// The last place before `upto` that declares the class `name`, or -1.
pub open spec fn declared_before(classes: ClassesView, name: Seq<char>, upto: int) -> int
    decreases upto,
{
    if upto <= 0 || upto > classes.len() {
        -1
    } else if classes[upto - 1].0 == name {
        upto - 1
    } else {
        declared_before(classes, name, upto - 1)
    }
}

/// The letters of the class `name`, if it is declared.
pub open spec fn letters_of(classes: ClassesView, name: Seq<char>) -> Option<Seq<Seq<char>>> {
    let at = declared_before(classes, name, classes.len() as int);
    if at >= 0 {
        Some(classes[at].1)
    } else {
        None
    }
}

/// The first place at or after `from` at which `letter` stands in the list,
/// or the length of the list.
pub open spec fn index_from(letters: Seq<Seq<char>>, letter: Seq<char>, from: int) -> int
    decreases letters.len() - from,
{
    if from < 0 || from >= letters.len() {
        letters.len() as int
    } else if letters[from] == letter {
        from
    } else {
        index_from(letters, letter, from + 1)
    }
}

/// The place of `letter` in the list, if it is there.
pub open spec fn index_of(letters: Seq<Seq<char>>, letter: Seq<char>) -> Option<int> {
    let at = index_from(letters, letter, 0);
    if at < letters.len() {
        Some(at)
    } else {
        None
    }
}

/// No name is declared twice.
pub open spec fn named_once(classes: ClassesView) -> bool {
    forall|i: int, j: int|
        0 <= i < j < classes.len() ==> (#[trigger] classes[i]).0 != (#[trigger] classes[j]).0
}

/// The classes with one more declared: it takes the place of the class of
/// the same name, or goes to the end if there is none.
pub open spec fn with_class(classes: ClassesView, name: Seq<char>, letters: Seq<Seq<char>>) -> ClassesView {
    let at = declared_before(classes, name, classes.len() as int);
    if at >= 0 {
        classes.update(at, (name, letters))
    } else {
        classes.push((name, letters))
    }
}

/// The classes with the first `upto` of the given classes declared, one
/// after another.
pub open spec fn with_classes(classes: ClassesView, declared: ClassesView, upto: int) -> ClassesView
    decreases upto,
{
    if upto <= 0 || upto > declared.len() {
        classes
    } else {
        with_class(
            with_classes(classes, declared, upto - 1),
            declared[upto - 1].0,
            declared[upto - 1].1,
        )
    }
}

/// Declaring a class keeps every name to one class, and the class then has
/// the letters it was declared with.
pub proof fn lemma_with_class(classes: ClassesView, name: Seq<char>, letters: Seq<Seq<char>>)
    requires
        named_once(classes),
    ensures
        named_once(with_class(classes, name, letters)),
        letters_of(with_class(classes, name, letters), name) == Some(letters),
{
    lemma_declared_before(classes, name, classes.len() as int);
    let after = with_class(classes, name, letters);
    let at = declared_before(classes, name, classes.len() as int);
    lemma_declared_before(after, name, after.len() as int);
    if at >= 0 {
        assert forall|i: int, j: int| 0 <= i < j < after.len() implies (#[trigger] after[i]).0
            != (#[trigger] after[j]).0 by {
            assert(after[i].0 == classes[i].0);
            assert(after[j].0 == classes[j].0);
        }
        assert(after[at].0 == name);
        let found = declared_before(after, name, after.len() as int);
        if found != at {
            if found > at {
                assert(after[at].0 != after[found].0);
            }
        }
    } else {
        assert forall|i: int, j: int| 0 <= i < j < after.len() implies (#[trigger] after[i]).0
            != (#[trigger] after[j]).0 by {
            assert(after[i] == classes[i]);
            if j < classes.len() {
                assert(after[j] == classes[j]);
            } else {
                assert(classes[i].0 != name);
            }
        }
        assert(after[after.len() - 1].0 == name);
    }
}

/// Declaring classes one after another keeps every name to one class.
pub proof fn lemma_with_classes(classes: ClassesView, declared: ClassesView, upto: int)
    requires
        named_once(classes),
    ensures
        named_once(with_classes(classes, declared, upto)),
    decreases upto,
{
    if 0 < upto <= declared.len() {
        lemma_with_classes(classes, declared, upto - 1);
        lemma_with_class(
            with_classes(classes, declared, upto - 1),
            declared[upto - 1].0,
            declared[upto - 1].1,
        );
    }
}

/// Where `declared_before` points, the class is declared, and nowhere after
/// up to the bound.
pub proof fn lemma_declared_before(classes: ClassesView, name: Seq<char>, upto: int)
    requires
        0 <= upto <= classes.len(),
    ensures
        -1 <= declared_before(classes, name, upto) < upto,
        declared_before(classes, name, upto) >= 0 ==> classes[declared_before(
            classes,
            name,
            upto,
        )].0 == name,
        forall|k: int| declared_before(classes, name, upto) < k < upto ==> (#[trigger] classes[k]).0
            != name,
    decreases upto,
{
    if upto > 0 && classes[upto - 1].0 != name {
        lemma_declared_before(classes, name, upto - 1);
    }
}

/// Where `index_from` points, the letter stands, and nowhere before.
pub proof fn lemma_index_from(letters: Seq<Seq<char>>, letter: Seq<char>, from: int)
    requires
        0 <= from <= letters.len(),
    ensures
        from <= index_from(letters, letter, from) <= letters.len(),
        index_from(letters, letter, from) < letters.len() ==> letters[index_from(
            letters,
            letter,
            from,
        )] == letter,
        forall|k: int| from <= k < index_from(letters, letter, from) ==> letters[k] != letter,
        index_from(letters, letter, from) == letters.len() ==> !letters.subrange(
            from,
            letters.len() as int,
        ).contains(letter),
    decreases letters.len() - from,
{
    if from < letters.len() && letters[from] != letter {
        lemma_index_from(letters, letter, from + 1);
        let rest = letters.subrange(from, letters.len() as int);
        let inner = letters.subrange(from + 1, letters.len() as int);
        if index_from(letters, letter, from) == letters.len() && rest.contains(letter) {
            let k = choose|k: int| 0 <= k < rest.len() && rest[k] == letter;
            assert(inner[k - 1] == letter);
        }
    }
}

/// The place at which the class `name` is declared, if it is.
pub fn find_class(classes: &Vec<Class>, name: &str) -> (at: Option<usize>)
    ensures
        at is Some <==> letters_of(classes.deep_view(), name@) is Some,
        at matches Some(i) ==> i < classes.len() && i as int == declared_before(
            classes.deep_view(),
            name@,
            classes.len() as int,
        ) && letters_of(classes.deep_view(), name@) == Some(classes[i as int].1.deep_view()),
{
    let ghost view = classes.deep_view();
    let wanted = String::from_str(name);
    let mut upto: usize = classes.len();
    while upto > 0
        invariant
            upto <= classes.len(),
            view == classes.deep_view(),
            wanted@ == name@,
            declared_before(view, name@, classes.len() as int) == declared_before(
                view,
                name@,
                upto as int,
            ),
        decreases upto,
    {
        assert(view[upto - 1].0 == classes[upto - 1].0@);
        if classes[upto - 1].0 == wanted {
            assert(view[upto - 1].1 == classes[upto - 1].1.deep_view());
            return Some(upto - 1);
        }
        upto -= 1;
    }
    None
}

/// Declares a class: it takes the place of the class of the same name, or
/// goes to the end if there is none.
pub fn put_class(classes: &mut Vec<Class>, name: String, letters: Vec<String>)
    ensures
        final(classes).deep_view() == with_class(
            old(classes).deep_view(),
            name@,
            letters.deep_view(),
        ),
{
    let ghost before = classes.deep_view();
    let ghost entry = (name@, letters.deep_view());
    match find_class(classes, name.as_str()) {
        Some(at) => {
            classes[at] = (name, letters);
            assert(classes.deep_view() =~= before.update(at as int, entry));
        },
        None => {
            classes.push((name, letters));
            assert(classes.deep_view() =~= before.push(entry));
        },
    }
}

/// Declares the given classes one after another.
pub fn put_classes(classes: &mut Vec<Class>, declared: &Vec<Class>)
    ensures
        final(classes).deep_view() == with_classes(
            old(classes).deep_view(),
            declared.deep_view(),
            declared.len() as int,
        ),
{
    let ghost before = classes.deep_view();
    let ghost dv = declared.deep_view();
    let mut i: usize = 0;
    while i < declared.len()
        invariant
            i <= declared.len(),
            dv == declared.deep_view(),
            classes.deep_view() == with_classes(before, dv, i as int),
        decreases declared.len() - i,
    {
        assert(dv[i as int] == declared[i as int].deep_view());
        put_class(classes, declared[i].0.clone(), clone_strings(&declared[i].1));
        i += 1;
    }
}

/// The place of `letter` in a list of letters, if it is there.
pub fn position(letters: &Vec<String>, letter: &str) -> (at: Option<usize>)
    ensures
        at is Some <==> index_of(letters.deep_view(), letter@) is Some,
        at matches Some(i) ==> i < letters.len() && index_of(letters.deep_view(), letter@) == Some(
            i as int,
        ),
{
    let ghost view = letters.deep_view();
    let wanted = String::from_str(letter);
    let mut i: usize = 0;
    while i < letters.len()
        invariant
            i <= letters.len(),
            view == letters.deep_view(),
            wanted@ == letter@,
            index_from(view, letter@, 0) == index_from(view, letter@, i as int),
        decreases letters.len() - i,
    {
        assert(view[i as int] == letters[i as int]@);
        if letters[i] == wanted {
            return Some(i);
        }
        i += 1;
    }
    None
}

} // verus!
