//! The table of pronunciations: one entry for each letter, longer letters
//! before shorter ones.
use super::types::{Phoneme, PhonemeCondition, PhonemeView, RealizationView};
use vstd::prelude::*;
use vstd::string::StrSliceExecFns;

verus! {

/// No letter is longer than one that stands before it.
pub open spec fn longest_first(table: Seq<PhonemeView>) -> bool {
    forall|i: int, j: int|
        0 <= i < j < table.len() ==> (#[trigger] table[i]).0.len() >= (#[trigger] table[j]).0.len()
}

/// No letter has two entries.
pub open spec fn one_entry_each(table: Seq<PhonemeView>) -> bool {
    forall|i: int, j: int|
        0 <= i < j < table.len() ==> (#[trigger] table[i]).0 != (#[trigger] table[j]).0
}

/// The first place at or after `from` that holds `letter`, or the length of
/// the table if there is none.
pub open spec fn place_from(table: Seq<PhonemeView>, letter: Seq<char>, from: int) -> int
    decreases table.len() - from,
{
    if from < 0 || from >= table.len() {
        table.len() as int
    } else if table[from].0 == letter {
        from
    } else {
        place_from(table, letter, from + 1)
    }
}

/// The place of the entry of `letter`, if it has one.
pub open spec fn place_of(table: Seq<PhonemeView>, letter: Seq<char>) -> Option<int> {
    let at = place_from(table, letter, 0);
    if at < table.len() {
        Some(at)
    } else {
        None
    }
}

/// The first place at or after `from` whose letter is shorter than `length`,
/// or the length of the table if there is none.
pub open spec fn slot_from(table: Seq<PhonemeView>, length: nat, from: int) -> int
    decreases table.len() - from,
{
    if from < 0 || from >= table.len() {
        table.len() as int
    } else if table[from].0.len() < length {
        from
    } else {
        slot_from(table, length, from + 1)
    }
}

/// The table without the entry of `letter`.
pub open spec fn without(table: Seq<PhonemeView>, letter: Seq<char>) -> Seq<PhonemeView> {
    match place_of(table, letter) {
        Some(at) => table.remove(at),
        None => table,
    }
}

/// The table in which `letter` has the given pronunciations and no others.
/// An entry that exists keeps its place; a new one goes behind the letters
/// that are at least as long.
pub open spec fn with_entry(
    table: Seq<PhonemeView>,
    letter: Seq<char>,
    realizations: Seq<RealizationView>,
) -> Seq<PhonemeView> {
    match place_of(table, letter) {
        Some(at) => table.update(at, (letter, realizations)),
        None => table.insert(slot_from(table, letter.len(), 0), (letter, realizations)),
    }
}

/// Where `place_from` points, the letter stands, and nowhere before.
pub proof fn lemma_place_from(table: Seq<PhonemeView>, letter: Seq<char>, from: int)
    requires
        0 <= from <= table.len(),
    ensures
        from <= place_from(table, letter, from) <= table.len(),
        place_from(table, letter, from) < table.len() ==> table[place_from(
            table,
            letter,
            from,
        )].0 == letter,
        forall|k: int| from <= k < place_from(table, letter, from) ==> (#[trigger] table[k]).0
            != letter,
    decreases table.len() - from,
{
    if from < table.len() && table[from].0 != letter {
        lemma_place_from(table, letter, from + 1);
    }
}

/// Where `slot_from` points, a shorter letter stands, and none before.
pub proof fn lemma_slot_from(table: Seq<PhonemeView>, length: nat, from: int)
    requires
        0 <= from <= table.len(),
    ensures
        from <= slot_from(table, length, from) <= table.len(),
        slot_from(table, length, from) < table.len() ==> table[slot_from(
            table,
            length,
            from,
        )].0.len() < length,
        forall|k: int| from <= k < slot_from(table, length, from) ==> (#[trigger] table[k]).0.len()
            >= length,
    decreases table.len() - from,
{
    if from < table.len() && table[from].0.len() >= length {
        lemma_slot_from(table, length, from + 1);
    }
}

/// Taking a letter out keeps the table in order, and the letter is gone.
pub proof fn lemma_without(table: Seq<PhonemeView>, letter: Seq<char>)
    requires
        longest_first(table),
        one_entry_each(table),
    ensures
        longest_first(without(table, letter)),
        one_entry_each(without(table, letter)),
        place_of(without(table, letter), letter) is None,
        forall|k: int|
            0 <= k < without(table, letter).len() ==> (#[trigger] without(table, letter)[k]).0
                != letter,
{
    lemma_place_from(table, letter, 0);
    let after = without(table, letter);
    match place_of(table, letter) {
        Some(at) => {
            assert forall|k: int| 0 <= k < after.len() implies (#[trigger] after[k]).0
                != letter by {
                if k < at {
                    assert(after[k] == table[k]);
                } else {
                    assert(after[k] == table[k + 1]);
                    assert(table[at].0 != table[k + 1].0);
                }
            }
            assert forall|i: int, j: int| 0 <= i < j < after.len() implies (#[trigger] after[i]).0
                != (#[trigger] after[j]).0 && after[i].0.len() >= after[j].0.len() by {
                let oi = if i < at {
                    i
                } else {
                    i + 1
                };
                let oj = if j < at {
                    j
                } else {
                    j + 1
                };
                assert(after[i] == table[oi]);
                assert(after[j] == table[oj]);
                assert(table[oi].0 != table[oj].0);
                assert(table[oi].0.len() >= table[oj].0.len());
            }
        },
        None => {},
    }
    lemma_place_from(after, letter, 0);
}

/// Putting an entry in keeps the table in order, and the letter then has
/// exactly the pronunciations given.
pub proof fn lemma_with_entry(
    table: Seq<PhonemeView>,
    letter: Seq<char>,
    realizations: Seq<RealizationView>,
)
    requires
        longest_first(table),
        one_entry_each(table),
    ensures
        longest_first(with_entry(table, letter, realizations)),
        one_entry_each(with_entry(table, letter, realizations)),
        place_of(with_entry(table, letter, realizations), letter) is Some,
        with_entry(table, letter, realizations)[place_of(
            with_entry(table, letter, realizations),
            letter,
        )->0] == (letter, realizations),
{
    lemma_place_from(table, letter, 0);
    lemma_slot_from(table, letter.len(), 0);
    let after = with_entry(table, letter, realizations);
    let entry = (letter, realizations);
    match place_of(table, letter) {
        Some(at) => {
            assert forall|i: int, j: int| 0 <= i < j < after.len() implies (#[trigger] after[i]).0
                != (#[trigger] after[j]).0 && after[i].0.len() >= after[j].0.len() by {
                assert(after[i].0 == table[i].0);
                assert(after[j].0 == table[j].0);
                assert(table[i].0 != table[j].0);
                assert(table[i].0.len() >= table[j].0.len());
            }
            lemma_place_from(after, letter, 0);
            assert(after[at].0 == letter);
            assert forall|k: int| 0 <= k < after.len() && k != at implies (#[trigger] after[k]).0
                != letter by {
                assert(after[k] == table[k]);
                if k < at {
                    assert(table[k].0 != table[at].0);
                } else {
                    assert(table[at].0 != table[k].0);
                }
            }
        },
        None => {
            let slot = slot_from(table, letter.len(), 0);
            assert forall|i: int, j: int| 0 <= i < j < after.len() implies (#[trigger] after[i]).0
                != (#[trigger] after[j]).0 && after[i].0.len() >= after[j].0.len() by {
                if i == slot {
                    assert(after[j] == table[j - 1]);
                    assert(table[j - 1].0 != letter);
                    if j - 1 > slot {
                        assert(table[slot].0.len() >= table[j - 1].0.len());
                    }
                } else if j == slot {
                    assert(after[i] == table[i]);
                    assert(table[i].0 != letter);
                } else {
                    let oi = if i < slot {
                        i
                    } else {
                        i - 1
                    };
                    let oj = if j < slot {
                        j
                    } else {
                        j - 1
                    };
                    assert(after[i] == table[oi]);
                    assert(after[j] == table[oj]);
                    assert(table[oi].0 != table[oj].0);
                    assert(table[oi].0.len() >= table[oj].0.len());
                }
            }
            lemma_place_from(after, letter, 0);
            assert(after[slot] == entry);
            assert forall|k: int| 0 <= k < after.len() && k != slot implies (#[trigger] after[k]).0
                != letter by {
                if k < slot {
                    assert(after[k] == table[k]);
                } else {
                    assert(after[k] == table[k - 1]);
                }
                assert(table[if k < slot {
                    k
                } else {
                    k - 1
                }].0 != letter);
            }
        },
    }
}

/// The place of the entry of `letter`, if it has one.
pub fn find_letter(table: &Vec<Phoneme>, letter: &str) -> (at: Option<usize>)
    ensures
        at is Some <==> place_of(table.deep_view(), letter@) is Some,
        at matches Some(i) ==> place_of(table.deep_view(), letter@) == Some(i as int),
{
    let ghost view = table.deep_view();
    let wanted = String::from_str(letter);
    let mut i: usize = 0;
    while i < table.len()
        invariant
            i <= table.len(),
            view == table.deep_view(),
            wanted@ == letter@,
            place_from(view, letter@, 0) == place_from(view, letter@, i as int),
        decreases table.len() - i,
    {
        assert(view[i as int].0 == table[i as int].0@);
        if table[i].0 == wanted {
            return Some(i);
        }
        i += 1;
    }
    None
}

/// Takes the entry of `letter` out of the table, if it has one.
pub fn remove_letter(table: &mut Vec<Phoneme>, letter: &str)
    ensures
        final(table).deep_view() == without(old(table).deep_view(), letter@),
{
    match find_letter(table, letter) {
        Some(at) => {
            let ghost before = table.deep_view();
            table.remove(at);
            assert(table.deep_view() =~= before.remove(at as int));
        },
        None => {},
    }
}

/// Gives `letter` the pronunciations `realizations` and no others.
pub fn put_letter(table: &mut Vec<Phoneme>, letter: String, realizations: Vec<PhonemeCondition>)
    ensures
        final(table).deep_view() == with_entry(
            old(table).deep_view(),
            letter@,
            realizations.deep_view(),
        ),
{
    let ghost before = table.deep_view();
    let ghost entry = (letter@, realizations.deep_view());
    match find_letter(table, letter.as_str()) {
        Some(at) => {
            table[at] = (letter, realizations);
            assert(table.deep_view() =~= before.update(at as int, entry));
        },
        None => {
            let length = letter.as_str().unicode_len();
            let mut slot: usize = 0;
            while slot < table.len() && table[slot].0.as_str().unicode_len() >= length
                invariant
                    slot <= table.len(),
                    before == table.deep_view(),
                    length == letter@.len(),
                    slot_from(before, letter@.len(), 0) == slot_from(
                        before,
                        letter@.len(),
                        slot as int,
                    ),
                decreases table.len() - slot,
            {
                assert(before[slot as int].0 == table[slot as int].0@);
                slot += 1;
            }
            assert(slot < table.len() ==> before[slot as int].0 == table[slot as int].0@);
            table.insert(slot, (letter, realizations));
            assert(table.deep_view() =~= before.insert(slot as int, entry));
        },
    }
}

} // verus!
