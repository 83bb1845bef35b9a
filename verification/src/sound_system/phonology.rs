//! The inventory of a sound system: the consonants and vowels that its
//! letters stand for.
use super::phone::ordering::{
    lemma_above_is_strict, lemma_above_is_total, lemma_above_is_transitive, stands_above,
};
use super::phone::{Phone, Phones};
use super::system::SoundSystem;
use super::types::{lemma_phones_view, PhonemeCondition, PhonemeView, RealizationView};
use vstd::prelude::*;

verus! {

/// The phones of a list of pronunciations, one after another.
pub open spec fn phones_in(list: Seq<RealizationView>) -> Seq<Phone>
    decreases list.len(),
{
    if list.len() == 0 {
        Seq::empty()
    } else {
        phones_in(list.drop_last()) + list.last().0
    }
}

/// The phones of a table, one after another.
pub open spec fn phones_in_table(table: Seq<PhonemeView>) -> Seq<Phone>
    decreases table.len(),
{
    if table.len() == 0 {
        Seq::empty()
    } else {
        phones_in_table(table.drop_last()) + phones_in(table.last().1)
    }
}

/// Each phone stands above all that come after it.
pub open spec fn descending(phones: Seq<Phone>) -> bool {
    forall|i: int, j: int|
        0 <= i < j < phones.len() ==> stands_above(#[trigger] phones[i], #[trigger] phones[j])
}

/// Whether `inventory` holds exactly the consonants and vowels among
/// `phones`.
pub open spec fn holds_sounds_of(inventory: Seq<Phone>, phones: Seq<Phone>) -> bool {
    forall|phone: Phone|
        #![trigger inventory.contains(phone)]
        #![trigger phones.contains(phone)]
        inventory.contains(phone) <==> !(phone is Diacritic) && phones.contains(phone)
}

/// Whether `now` holds what `before` held and, besides, the consonants and
/// vowels among `added`.
pub open spec fn took_in(now: Seq<Phone>, before: Seq<Phone>, added: Seq<Phone>) -> bool {
    forall|phone: Phone|
        #![trigger now.contains(phone)]
        #![trigger before.contains(phone)]
        #![trigger added.contains(phone)]
        now.contains(phone) <==> before.contains(phone) || (!(phone is Diacritic)
            && added.contains(phone))
}

/// A phone is in a list put together from two if it is in one of them.
pub proof fn lemma_contains_either(left: Seq<Phone>, right: Seq<Phone>, phone: Phone)
    ensures
        (left + right).contains(phone) <==> left.contains(phone) || right.contains(phone),
{
    if left.contains(phone) {
        let i = choose|i: int| 0 <= i < left.len() && left[i] == phone;
        assert((left + right)[i] == phone);
    }
    if right.contains(phone) {
        let i = choose|i: int| 0 <= i < right.len() && right[i] == phone;
        assert((left + right)[left.len() + i] == phone);
    }
    if (left + right).contains(phone) {
        let i = choose|i: int| 0 <= i < (left + right).len() && (left + right)[i] == phone;
        if i < left.len() {
            assert(left[i] == phone);
        } else {
            assert(right[i - left.len()] == phone);
        }
    }
}

/// Two inventories of the same phones are the same inventory.
pub proof fn lemma_one_inventory(one: Seq<Phone>, other: Seq<Phone>, phones: Seq<Phone>)
    requires
        descending(one),
        descending(other),
        holds_sounds_of(one, phones),
        holds_sounds_of(other, phones),
    ensures
        one == other,
    decreases one.len(),
{
    if one.len() == 0 {
        if other.len() > 0 {
            assert(other.contains(other[0]));
            assert(one.contains(other[0]));
        }
        assert(one =~= other);
    } else {
        let top = one[0];
        assert(one.contains(top));
        assert(other.contains(top));
        let at = choose|i: int| 0 <= i < other.len() && other[i] == top;
        if at > 0 {
            let above = other[0];
            assert(other.contains(above));
            assert(one.contains(above));
            let back = choose|i: int| 0 <= i < one.len() && one[i] == above;
            lemma_above_is_strict(above, top);
            if back > 0 {
                assert(stands_above(one[0], one[back]));
            }
        }
        let rest_one = one.drop_first();
        let rest_other = other.drop_first();
        let rest = rest_one;
        assert(descending(rest_one)) by {
            assert forall|i: int, j: int| 0 <= i < j < rest_one.len() implies stands_above(
                #[trigger] rest_one[i],
                #[trigger] rest_one[j],
            ) by {
                assert(rest_one[i] == one[i + 1]);
                assert(rest_one[j] == one[j + 1]);
            }
        }
        assert(descending(rest_other)) by {
            assert forall|i: int, j: int| 0 <= i < j < rest_other.len() implies stands_above(
                #[trigger] rest_other[i],
                #[trigger] rest_other[j],
            ) by {
                assert(rest_other[i] == other[i + 1]);
                assert(rest_other[j] == other[j + 1]);
            }
        }
        assert forall|phone: Phone| rest_other.contains(phone) <==> !(phone is Diacritic)
            && rest.contains(phone) by {
            lemma_above_is_strict(top, top);
            if rest_other.contains(phone) {
                let i = choose|i: int| 0 <= i < rest_other.len() && rest_other[i] == phone;
                assert(other[i + 1] == phone);
                assert(other.contains(phone));
                assert(stands_above(other[0], other[i + 1]));
                assert(one.contains(phone));
                let k = choose|k: int| 0 <= k < one.len() && one[k] == phone;
                assert(k > 0);
                assert(rest_one[k - 1] == phone);
            }
            if rest.contains(phone) {
                let i = choose|i: int| 0 <= i < rest_one.len() && rest_one[i] == phone;
                assert(one[i + 1] == phone);
                assert(one.contains(phone));
                assert(stands_above(one[0], one[i + 1]));
                assert(other.contains(phone));
                let k = choose|k: int| 0 <= k < other.len() && other[k] == phone;
                assert(k > 0);
                assert(rest_other[k - 1] == phone);
            }
        }
        assert forall|phone: Phone| rest_one.contains(phone) <==> !(phone is Diacritic)
            && rest.contains(phone) by {
            if rest_one.contains(phone) {
                let i = choose|i: int| 0 <= i < rest_one.len() && rest_one[i] == phone;
                assert(one[i + 1] == phone);
                assert(one.contains(phone));
            }
        }
        lemma_one_inventory(rest_one, rest_other, rest);
        assert(one =~= seq![top] + rest_one);
        assert(other =~= seq![top] + rest_other);
    }
}

/// Puts a consonant or vowel into an inventory, unless it is there.
fn insert_phone(inventory: &mut Phones, phone: Phone)
    requires
        descending(old(inventory)@),
        !(phone is Diacritic),
        forall|i: int| 0 <= i < old(inventory)@.len() ==> !(old(inventory)@[i] is Diacritic),
    ensures
        descending(final(inventory)@),
        forall|i: int| 0 <= i < final(inventory)@.len() ==> !(final(inventory)@[i] is Diacritic),
        took_in(final(inventory)@, old(inventory)@, seq![phone]),
{
    let ghost before = inventory@;
    let mut at: usize = 0;
    while at < inventory.len()
        invariant
            at <= inventory.len(),
            inventory@ == before,
            descending(before),
            forall|i: int| 0 <= i < before.len() ==> !(before[i] is Diacritic),
            !(phone is Diacritic),
            forall|i: int| 0 <= i < at ==> stands_above(#[trigger] before[i], phone),
        ensures
            at <= inventory.len(),
            inventory@ == before,
            forall|i: int| 0 <= i < at ==> stands_above(#[trigger] before[i], phone),
            at < inventory.len() ==> stands_above(phone, before[at as int]),
        decreases inventory.len() - at,
    {
        if !inventory[at].is_above(phone) {
            if inventory[at] == phone {
                proof {
                    assert(before.contains(phone)) by {
                        assert(before[at as int] == phone);
                    }
                    assert forall|other: Phone| seq![phone].contains(other) implies other
                        == phone by {}
                }
                return ;
            }
            proof {
                lemma_above_is_total(before[at as int], phone);
            }
            break ;
        }
        at += 1;
    }
    inventory.insert(at, phone);
    proof {
        let after = inventory@;
        assert(after =~= before.insert(at as int, phone));
        assert forall|i: int, j: int| 0 <= i < j < after.len() implies stands_above(
            #[trigger] after[i],
            #[trigger] after[j],
        ) by {
            if j == at {
                assert(after[i] == before[i]);
            } else if i == at {
                assert(after[j] == before[j - 1]);
                if j - 1 > at {
                    lemma_above_is_transitive(phone, before[at as int], before[j - 1]);
                }
            } else {
                let oi = if i < at {
                    i
                } else {
                    i - 1
                };
                let oj = if j < at {
                    j
                } else {
                    j - 1
                };
                assert(after[i] == before[oi]);
                assert(after[j] == before[oj]);
            }
        }
        assert forall|other: Phone|
            after.contains(other) <==> before.contains(other) || (!(other is Diacritic)
                && seq![phone].contains(other)) by {
            assert(seq![phone].contains(other) <==> other == phone) by {
                if other == phone {
                    assert(seq![phone][0] == other);
                }
            }
            if before.contains(other) {
                let i = choose|i: int| 0 <= i < before.len() && before[i] == other;
                assert(after[if i < at {
                    i
                } else {
                    i + 1
                }] == other);
            }
            if other == phone {
                assert(after[at as int] == other);
            }
            if after.contains(other) {
                let i = choose|i: int| 0 <= i < after.len() && after[i] == other;
                if i < at {
                    assert(before[i] == other);
                } else if i > at {
                    assert(before[i - 1] == other);
                }
            }
        }
        assert forall|i: int| 0 <= i < after.len() implies !(after[i] is Diacritic) by {
            if i < at {
                assert(after[i] == before[i]);
            } else if i > at {
                assert(after[i] == before[i - 1]);
            }
        }
    }
}

/// Puts the consonants and vowels of a list of phones into an inventory.
fn insert_phones(inventory: &mut Phones, phones: &Phones)
    requires
        descending(old(inventory)@),
        forall|i: int| 0 <= i < old(inventory)@.len() ==> !(old(inventory)@[i] is Diacritic),
    ensures
        descending(final(inventory)@),
        forall|i: int| 0 <= i < final(inventory)@.len() ==> !(final(inventory)@[i] is Diacritic),
        took_in(final(inventory)@, old(inventory)@, phones@),
{
    let ghost before = inventory@;
    let mut i: usize = 0;
    while i < phones.len()
        invariant
            i <= phones.len(),
            descending(inventory@),
            forall|k: int| 0 <= k < inventory@.len() ==> !(inventory@[k] is Diacritic),
            took_in(inventory@, before, phones@.take(i as int)),
        decreases phones.len() - i,
    {
        let phone = phones[i];
        let is_mark = match phone {
            Phone::Diacritic(_) => true,
            _ => false,
        };
        if !is_mark {
            insert_phone(inventory, phone);
        }
        proof {
            assert(phones@.take(i + 1) =~= phones@.take(i as int) + seq![phone]);
            assert forall|other: Phone|
                inventory@.contains(other) <==> before.contains(other) || (!(other is Diacritic)
                    && phones@.take(i + 1).contains(other)) by {
                lemma_contains_either(phones@.take(i as int), seq![phone], other);
                assert(seq![phone].contains(other) <==> other == phone) by {
                    if other == phone {
                        assert(seq![phone][0] == other);
                    }
                }
            }
        }
        i += 1;
    }
    assert(phones@.take(i as int) =~= phones@);
}

/// Puts the consonants and vowels of a list of pronunciations into an
/// inventory.
fn insert_realizations(inventory: &mut Phones, list: &Vec<PhonemeCondition>)
    requires
        descending(old(inventory)@),
        forall|i: int| 0 <= i < old(inventory)@.len() ==> !(old(inventory)@[i] is Diacritic),
    ensures
        descending(final(inventory)@),
        forall|i: int| 0 <= i < final(inventory)@.len() ==> !(final(inventory)@[i] is Diacritic),
        took_in(final(inventory)@, old(inventory)@, phones_in(list.deep_view())),
{
    let ghost before = inventory@;
    let ghost view = list.deep_view();
    let mut j: usize = 0;
    while j < list.len()
        invariant
            j <= list.len(),
            view == list.deep_view(),
            descending(inventory@),
            forall|k: int| 0 <= k < inventory@.len() ==> !(inventory@[k] is Diacritic),
            took_in(inventory@, before, phones_in(view.take(j as int))),
        decreases list.len() - j,
    {
        insert_phones(inventory, &list[j].0);
        proof {
            lemma_phones_view(list[j as int].0);
            assert(view.take(j + 1).drop_last() =~= view.take(j as int));
            assert(view.take(j + 1).last().0 == list[j as int].0@);
            assert forall|other: Phone|
                inventory@.contains(other) <==> before.contains(other) || (!(other is Diacritic)
                    && phones_in(view.take(j + 1)).contains(other)) by {
                lemma_contains_either(phones_in(view.take(j as int)), list[j as int].0@, other);
                assert(phones_in(view.take(j + 1)) == phones_in(view.take(j as int))
                    + list[j as int].0@);
            }
        }
        j += 1;
    }
    assert(view.take(j as int) =~= view);
}

impl SoundSystem {
    /// The consonants and vowels of the system, each once, from the highest
    /// in the phonological order to the lowest.
    pub fn phonology(&self) -> (inventory: Phones)
        ensures
            descending(inventory@),
            holds_sounds_of(inventory@, phones_in_table(self@.phonemes)),
    {
        let table = self.phonemes_sorted();
        let ghost view = table.deep_view();
        let mut inventory: Phones = Vec::new();
        let mut k: usize = 0;
        while k < table.len()
            invariant
                k <= table.len(),
                view == table.deep_view(),
                descending(inventory@),
                forall|i: int| 0 <= i < inventory@.len() ==> !(inventory@[i] is Diacritic),
                holds_sounds_of(inventory@, phones_in_table(view.take(k as int))),
            decreases table.len() - k,
        {
            insert_realizations(&mut inventory, &table[k].1);
            proof {
                assert(view.take(k + 1).drop_last() =~= view.take(k as int));
                assert(view.take(k + 1).last().1 == table[k as int].1.deep_view());
                assert forall|other: Phone|
                    inventory@.contains(other) <==> !(other is Diacritic) && phones_in_table(
                        view.take(k + 1),
                    ).contains(other) by {
                    lemma_contains_either(
                        phones_in_table(view.take(k as int)),
                        phones_in(table[k as int].1.deep_view()),
                        other,
                    );
                    assert(phones_in_table(view.take(k + 1)) == phones_in_table(
                        view.take(k as int),
                    ) + phones_in(table[k as int].1.deep_view()));
                }
            }
            k += 1;
        }
        assert(view.take(k as int) =~= view);
        inventory
    }
}

} // verus!
