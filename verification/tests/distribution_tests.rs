use lexibook::sound_system::compiler::frequency;
use lexibook::sound_system::distribution::{
    power_law, power_law_at, power_law_step, select, select_at, sum_of_weights,
};
use lexibook::sound_system::generator::{
    class_letters, keep_word, slot_letter, syllable_count, syllable_drop, syllable_from,
};
use lexibook::sound_system::{MonoSyllableRepartition, SoundSystem};
use lexibook::wgl::Letter;

fn weights(items: &[(&str, u64)]) -> Vec<(String, u64)> {
    items.iter().map(|(l, w)| (l.to_string(), *w)).collect()
}

fn strings(items: &[&str]) -> Vec<String> {
    items.iter().map(|s| s.to_string()).collect()
}

#[test]
fn select_never_takes_a_letter_without_weight() {
    let w = weights(&[("x", 1), ("y", 0)]);
    for _ in 0..200 {
        assert_eq!(select(&w), "x");
    }
    let w = weights(&[("x", 0), ("y", 5), ("z", 0)]);
    for _ in 0..200 {
        assert_eq!(select(&w), "y");
    }
}

#[test]
fn select_takes_the_first_letter_where_none_has_weight() {
    let w = weights(&[("x", 0), ("y", 0)]);
    assert_eq!(select(&w), "x");
}

#[test]
fn select_at_follows_the_running_sum() {
    let w = weights(&[("a", 2), ("b", 0), ("c", 3)]);
    assert_eq!(sum_of_weights(&w), 5);
    assert_eq!(select_at(&w, 0), "a");
    assert_eq!(select_at(&w, 1), "a");
    assert_eq!(select_at(&w, 2), "c");
    assert_eq!(select_at(&w, 4), "c");
    assert_eq!(select_at(&w, 5), "a");
}

#[test]
fn weights_may_fill_sixty_four_bits() {
    let w = weights(&[("a", u64::MAX), ("b", u64::MAX)]);
    assert_eq!(sum_of_weights(&w), 2 * (u64::MAX as u128));
    assert_eq!(select_at(&w, u64::MAX as u128), "b");
}

#[test]
fn power_law_stays_below_its_bound() {
    for _ in 0..200 {
        assert!(power_law(4, 50) < 4);
        assert_eq!(power_law(1, 12), 0);
        assert_eq!(power_law(7, 100), 0);
    }
}

#[test]
fn power_law_draws_nothing_where_it_cannot_end() {
    assert_eq!(power_law(5, 0), 0);
    assert_eq!(power_law(0, 50), 0);
    assert_eq!(power_law(0, 0), 0);
}

#[test]
fn the_drop_falls_with_the_number_of_shapes() {
    assert_eq!(syllable_drop(0), 60);
    assert_eq!(syllable_drop(1), 55);
    assert_eq!(syllable_drop(8), 20);
    assert_eq!(syllable_drop(9), 15);
    assert_eq!(syllable_drop(10), 12);
    assert_eq!(syllable_drop(1000), 12);
}

#[test]
fn repartition_in_hundredths() {
    assert_eq!(MonoSyllableRepartition::Always.into_percentage(), 100);
    assert_eq!(MonoSyllableRepartition::Mostly.into_percentage(), 85);
    assert_eq!(MonoSyllableRepartition::Frequent.into_percentage(), 50);
    assert_eq!(MonoSyllableRepartition::LessFrequent.into_percentage(), 20);
    assert_eq!(MonoSyllableRepartition::Rare.into_percentage(), 7);
    assert_eq!(MonoSyllableRepartition::Never.into_percentage(), 0);
}

fn small_system() -> SoundSystem {
    SoundSystem::new(
        vec![
            ("C".to_string(), strings(&["p", "t"])),
            ("V".to_string(), strings(&["a"])),
            ("N".to_string(), strings(&["n", "q"])),
        ],
        vec![],
        vec![strings(&["C", "V", "N?"]), strings(&["V", "X"])],
        weights(&[("p", 3), ("t", 1), ("a", 2), ("n", 1)]),
        vec![],
    )
}

#[test]
fn generated_words_are_different_and_made_of_letters() {
    let system = small_system();
    let words = system.generate_words(200, MonoSyllableRepartition::LessFrequent);
    assert!(words.len() <= 200);
    assert!(!words.is_empty());
    for (i, word) in words.iter().enumerate() {
        assert!(!word.is_empty());
        assert!(word.chars().all(|c| "ptan".contains(c)));
        assert!(!words[..i].contains(word));
    }
}

#[test]
fn always_gives_words_of_one_syllable() {
    let system = small_system();
    let words = system.generate_words(100, MonoSyllableRepartition::Always);
    let known = ["pa", "ta", "pan", "tan", "a"];
    assert!(words.iter().all(|w| known.contains(&w.as_str())));
}

#[test]
fn never_gives_words_of_more_syllables() {
    let system = SoundSystem::new(
        vec![("V".to_string(), strings(&["a"]))],
        vec![],
        vec![strings(&["V"])],
        weights(&[("a", 1)]),
        vec![],
    );
    let words = system.generate_words(100, MonoSyllableRepartition::Never);
    assert!(!words.is_empty());
    assert!(words.iter().all(|w| w.len() >= 2 && w.len() <= 5 && w.chars().all(|c| c == 'a')));
}

#[test]
fn a_system_without_shapes_gives_the_empty_word() {
    let system = SoundSystem::with_default();
    assert_eq!(system.generate_words(3, MonoSyllableRepartition::Frequent), strings(&[""]));
    assert_eq!(system.generate_words(0, MonoSyllableRepartition::Frequent), strings(&[]));
}

fn gusein_zade(position: usize, size: usize) -> f64 {
    (((size + 1) as f64).log10() - ((position + 1) as f64).log10()) / (size as f64) * 100.0
}

fn by_rank(size: usize) -> Vec<u64> {
    (0..size).map(|i| (gusein_zade(i, size) * 1_000_000.0).round() as u64).collect()
}

fn unweighted(names: &[&str]) -> Vec<Letter> {
    names.iter().map(|n| Letter { letter: n.to_string(), frequency: 0 }).collect()
}

#[test]
fn test_frequency() {
    let letters = unweighted(&["e", "a", "c"]);
    let result = frequency(&letters, &by_rank(3));
    assert_eq!(
        result,
        vec![
            ("e".to_string(), 20068666),
            ("a".to_string(), 10034333),
            ("c".to_string(), 4164625),
        ]
    )
}

#[test]
fn distribution_test_frequency() {
    let letters = unweighted(&["e", "a", "c"]);
    let result = frequency(&letters, &by_rank(3));
    let expected = [20.068666377598745, 10.034333188799373, 4.164624553609999];
    assert_eq!(result.len(), 3);
    for (i, (letter, weight)) in result.iter().enumerate() {
        assert_eq!(letter, &letters[i].letter);
        assert!((*weight as f64 / 1_000_000.0 - expected[i]).abs() < 0.000001);
    }
    assert!(result[0].1 > result[1].1 && result[1].1 > result[2].1);
}

#[test]
fn the_draw_decides_the_number_of_syllables() {
    assert_eq!(syllable_count(100, 99, 3), 1);
    assert_eq!(syllable_count(85, 84, 3), 1);
    assert_eq!(syllable_count(85, 85, 0), 2);
    assert_eq!(syllable_count(85, 99, 3), 5);
    assert_eq!(syllable_count(0, 0, 1), 3);
}

#[test]
fn a_word_is_kept_once() {
    let mut words = strings(&["pa", "ta"]);
    keep_word(&mut words, "pa".to_string());
    assert_eq!(words, strings(&["pa", "ta"]));
    keep_word(&mut words, "na".to_string());
    assert_eq!(words, strings(&["pa", "ta", "na"]));
    let mut none: Vec<String> = vec![];
    keep_word(&mut none, "".to_string());
    assert_eq!(none, strings(&[""]));
}

#[test]
fn the_letters_of_a_class_keep_their_weights_and_order() {
    let distribution = weights(&[("p", 3), ("t", 1), ("a", 2), ("n", 1)]);
    let classes = vec![
        ("C".to_string(), strings(&["n", "p", "q"])),
        ("E".to_string(), strings(&[])),
        ("C".to_string(), strings(&["t", "n", "z"])),
    ];
    assert_eq!(class_letters(&distribution, &classes, "C"), weights(&[("t", 1), ("n", 1)]));
    assert_eq!(class_letters(&distribution, &classes, "E"), weights(&[]));
    assert_eq!(class_letters(&distribution, &classes, "V"), weights(&[]));
}

#[test]
fn the_place_is_the_number_of_misses_before_the_first_hit() {
    assert_eq!(power_law_at(4, 50, &vec![70, 60, 10, 99]), 2);
    assert_eq!(power_law_at(4, 50, &vec![10, 99]), 0);
    assert_eq!(power_law_at(4, 50, &vec![50, 51, 52, 53, 99, 0]), 1);
    assert_eq!(power_law_at(4, 50, &vec![99, 99, 99]), 3);
    assert_eq!(power_law_at(1, 12, &vec![99, 99, 99]), 0);
    assert_eq!(power_law_at(4, 100, &vec![99]), 0);
    assert_eq!(power_law_at(4, 50, &vec![]), 0);
    assert_eq!(power_law_at(0, 50, &vec![99, 99]), 0);
    assert_eq!(power_law_at(4, 0, &vec![99, 99]), 0);
    assert_eq!(power_law_at(7, 1, &vec![1; 20000]), 10000 % 7);
}

#[test]
fn one_draw_ends_the_stepping_or_leads_one_place_further() {
    assert_eq!(power_law_step(4, 50, 0, 49), None);
    assert_eq!(power_law_step(4, 50, 0, 50), Some(1));
    assert_eq!(power_law_step(4, 50, 3, 99), Some(0));
    assert_eq!(power_law_step(1, 50, 0, 99), Some(0));
    assert_eq!(power_law_step(0, 50, 0, 99), Some(0));
    assert_eq!(power_law_step(usize::MAX, 50, usize::MAX - 1, 99), Some(0));
}

#[test]
fn a_slot_gives_the_letter_that_the_draw_falls_on() {
    let letters = weights(&[("p", 3), ("t", 1)]);
    assert_eq!(slot_letter(&letters, false, (true, 0)), "p");
    assert_eq!(slot_letter(&letters, false, (false, 3)), "t");
    assert_eq!(slot_letter(&letters, true, (true, 2)), "p");
    assert_eq!(slot_letter(&letters, true, (false, 2)), "");
    assert_eq!(slot_letter(&weights(&[]), false, (true, 0)), "");
}

#[test]
fn a_syllable_follows_its_shape_and_the_draws() {
    let distribution = weights(&[("p", 3), ("t", 1), ("a", 2), ("n", 1)]);
    let classes = vec![
        ("C".to_string(), strings(&["p", "t"])),
        ("V".to_string(), strings(&["a"])),
        ("N".to_string(), strings(&["n", "q"])),
    ];
    let shape = strings(&["C", "V", "N?", "X", "C?"]);
    let draws = vec![(true, 3), (false, 1), (true, 0), (true, 0), (false, 0)];
    assert_eq!(syllable_from(&distribution, &classes, &shape, &draws), "tan");
    let other = vec![(true, 0), (true, 0), (false, 0), (true, 0), (true, 3)];
    assert_eq!(syllable_from(&distribution, &classes, &shape, &other), "pat");
    assert_eq!(syllable_from(&distribution, &classes, &shape, &vec![]), "panp");
    assert_eq!(syllable_from(&distribution, &classes, &vec![], &draws), "");
}

#[test]
fn a_system_of_one_letter_gives_one_word() {
    let system = SoundSystem::new(
        vec![("V".to_string(), strings(&["a"]))],
        vec![],
        vec![strings(&["V"])],
        weights(&[("a", 1_000_000)]),
        vec![],
    );
    assert_eq!(system.generate_words(5, MonoSyllableRepartition::Always), strings(&["a"]));
}
