use lexibook::sound_system::phone::{
    Backness, Consonant, ConsonantManner, ConsonantPlace, Height, Phonation, Phone, Roundness,
    Vowel,
};
use std::cmp::Ordering;
use lexibook::sound_system::resolver::{resolve_condition, resolve_condition_type};
use lexibook::sound_system::{
    Condition, ConditionOperand, ConditionType, PhonemeCondition, PhonemeDifference, Rule,
    SoundSystem,
};

fn strings(items: &[&str]) -> Vec<String> {
    items.iter().map(|s| s.to_string()).collect()
}

fn phones(text: &str) -> Vec<Phone> {
    text.chars().filter_map(Phone::from_ipa).collect()
}

fn always(text: &str) -> PhonemeCondition {
    (phones(text), Condition::Always)
}

fn when(text: &str, test: ConditionType) -> PhonemeCondition {
    (phones(text), Condition::Single(test))
}

fn system(
    classes: Vec<(String, Vec<String>)>,
    phonemes: Vec<(&str, Vec<PhonemeCondition>)>,
    rules: Vec<Rule>,
) -> SoundSystem {
    SoundSystem::new(
        classes,
        phonemes.into_iter().map(|(l, r)| (l.to_string(), r)).collect(),
        vec![],
        vec![],
        rules,
    )
}

#[test]
fn the_longer_letter_is_read_first() {
    let s = system(
        vec![],
        vec![("t", vec![always("t")]), ("h", vec![always("h")]), ("th", vec![always("θ")])],
        vec![],
    );
    assert_eq!(s.phonemes_sorted()[0].0, "th");
    assert_eq!(s.ipa_representation("th"), "θ");
    assert_eq!(s.ipa_representation("tth"), "tθ");
    assert_eq!(s.ipa_representation("hthht"), "hθht");
}

#[test]
fn what_cannot_be_read_is_passed_over() {
    let s = system(vec![], vec![("a", vec![always("a")])], vec![]);
    assert_eq!(s.ipa_representation("xaxxa"), "aa");
    assert_eq!(s.ipa_representation(""), "");
    assert_eq!(s.ipa_representation("xyz"), "");
}

#[test]
fn a_letter_may_stand_for_several_phones() {
    let s = system(vec![], vec![("ä", vec![always("ja")]), ("n", vec![always("n")])], vec![]);
    assert_eq!(s.ipa_representation("näänä"), "njajanja");
}

#[test]
fn the_beginning_of_the_word_is_the_first_place_only() {
    let s = system(
        vec![],
        vec![("h", vec![always("h"), when("x", ConditionType::BeginningWord)])],
        vec![],
    );
    assert_eq!(s.ipa_representation("hhh"), "xhh");
}

#[test]
fn the_end_of_the_word_is_where_the_letter_ends_the_word() {
    let s = system(
        vec![],
        vec![
            ("ng", vec![always("n"), when("ŋ", ConditionType::EndWord)]),
            ("a", vec![always("a")]),
        ],
        vec![],
    );
    assert_eq!(s.ipa_representation("ngang"), "naŋ");
}

#[test]
fn followed_by_looks_behind_the_letter() {
    let classes =
        vec![("V".to_string(), strings(&["a", "e"])), ("E".to_string(), strings(&[]))];
    let s = system(
        classes,
        vec![
            ("c", vec![always("k"), when("s", ConditionType::FollowedBy("e".to_string()))]),
            ("g", vec![always("g"), when("ɣ", ConditionType::FollowedBy("Vn".to_string()))]),
            ("q", vec![always("q"), when("k", ConditionType::FollowedBy("E".to_string()))]),
            ("r", vec![always("r"), when("ɾ", ConditionType::FollowedBy("Q".to_string()))]),
        ],
        vec![],
    );
    assert_eq!(s.ipa_representation("cecac"), "skk");
    assert_eq!(s.ipa_representation("gangegengo"), "ɣgɣg");
    assert_eq!(s.ipa_representation("qa"), "q");
    assert_eq!(s.ipa_representation("ra"), "r");
}

#[test]
fn conditions_can_be_negated_and_joined() {
    let begin = Condition::Single(ConditionType::BeginningWord);
    let end = Condition::Single(ConditionType::EndWord);
    let joined = |operand| Condition::Binary {
        operand,
        left: Box::new(begin.clone()),
        right: Box::new(end.clone()),
    };
    let both = system(
        vec![],
        vec![("a", vec![always("a"), (phones("e"), joined(ConditionOperand::And))])],
        vec![],
    );
    assert_eq!(both.ipa_representation("a"), "e");
    assert_eq!(both.ipa_representation("aaa"), "aaa");
    let either = system(
        vec![],
        vec![("a", vec![always("a"), (phones("e"), joined(ConditionOperand::Or))])],
        vec![],
    );
    assert_eq!(either.ipa_representation("aaa"), "eae");
    let inner = system(
        vec![],
        vec![(
            "a",
            vec![always("a"), (phones("o"), Condition::Not(ConditionType::BeginningWord))],
        )],
        vec![],
    );
    assert_eq!(inner.ipa_representation("aaa"), "aoo");
}

#[test]
fn tests_that_are_not_interpreted_never_hold() {
    let s = system(
        vec![],
        vec![(
            "a",
            vec![
                when("e", ConditionType::Between("x".to_string(), "y".to_string())),
                when("o", ConditionType::Empty),
            ],
        )],
        vec![],
    );
    assert_eq!(s.ipa_representation("xay"), "");
}

#[test]
fn a_deleted_letter_is_read_no_more() {
    let mut s = system(
        vec![],
        vec![("l", vec![always("l")]), ("a", vec![always("a")])],
        vec![Rule::PhonemeRule {
            name: "l ~> ".to_string(),
            phoneme_differences: vec![PhonemeDifference::Delete("l".to_string())],
        }],
    );
    assert_eq!(s.ipa_representation("lala"), "lala");
    let done = s.sound_trasformation(strings(&["lala"]));
    assert_eq!(done.output, strings(&["lala"]));
    assert_eq!(done.history.len(), 1);
    assert_eq!(done.history[0].words, strings(&["lala"]));
    assert_eq!(s.ipa_representation("lala"), "aa");
}

#[test]
fn an_upsert_gives_a_letter_one_pronunciation() {
    let mut s = system(
        vec![],
        vec![("a", vec![always("a"), when("e", ConditionType::BeginningWord)])],
        vec![],
    );
    s.update_phoneme(&vec![
        PhonemeDifference::Skip,
        PhonemeDifference::Upsert("a".to_string(), phones("o")),
        PhonemeDifference::Upsert("aa".to_string(), phones("oː")),
        PhonemeDifference::Delete("x".to_string()),
    ]);
    assert_eq!(
        s.phonemes_sorted(),
        &vec![("aa".to_string(), vec![always("oː")]), ("a".to_string(), vec![always("o")])]
    );
    assert_eq!(s.ipa_representation("aaa"), "oːo");
}

#[test]
fn of_a_letter_given_twice_the_later_entry_counts() {
    let s = system(vec![], vec![("a", vec![always("a")]), ("a", vec![always("e")])], vec![]);
    assert_eq!(s.phonemes_sorted().len(), 1);
    assert_eq!(s.ipa_representation("a"), "e");
}

#[test]
fn phonology_lists_each_consonant_and_vowel_once_from_the_top() {
    let s = system(
        vec![],
        vec![
            ("a", vec![always("a")]),
            ("b", vec![always("b")]),
            ("p", vec![always("pʰ")]),
            ("ä", vec![always("ja")]),
            ("m", vec![always("m")]),
        ],
        vec![],
    );
    let p = |c| Phone::from_ipa(c).unwrap();
    assert_eq!(s.phonology(), vec![p('p'), p('b'), p('m'), p('j'), p('a')]);
    assert_eq!(
        p('a'),
        Phone::Vowel(Vowel {
            height: Height::Open,
            backness: Backness::Front,
            roundness: Roundness::UnRounded
        })
    );
    assert_eq!(
        p('m'),
        Phone::Consonant(Consonant {
            place: ConsonantPlace::Bilabial,
            manner: ConsonantManner::Nasal,
            phonation: Phonation::Voiced
        })
    );
}

#[test]
fn a_condition_that_always_holds_is_the_least_specific() {
    let begin = Condition::Single(ConditionType::BeginningWord);
    let end = Condition::Not(ConditionType::EndWord);
    assert_eq!(Condition::Always.partial_cmp(&begin), Some(Ordering::Less));
    assert_eq!(begin.partial_cmp(&Condition::Always), Some(Ordering::Greater));
    assert_eq!(begin.partial_cmp(&end), Some(Ordering::Equal));
    assert_eq!(Condition::Always.partial_cmp(&Condition::Always), Some(Ordering::Equal));
    assert!(Condition::Always < end);
}

#[test]
fn phones_are_ordered_by_kind_then_features() {
    let p = |c| Phone::from_ipa(c).unwrap();
    assert_eq!(p('p').partial_cmp(&p('a')), Some(Ordering::Greater));
    assert_eq!(p('a').partial_cmp(&p('ː')), Some(Ordering::Greater));
    assert_eq!(p('ː').partial_cmp(&p('ʰ')), Some(Ordering::Equal));
    assert_eq!(p('p').partial_cmp(&p('b')), Some(Ordering::Greater));
    assert_eq!(p('b').partial_cmp(&p('t')), Some(Ordering::Greater));
    assert_eq!(p('t').partial_cmp(&p('s')), Some(Ordering::Greater));
    assert_eq!(p('s').partial_cmp(&p('m')), Some(Ordering::Greater));
    assert_eq!(p('i').partial_cmp(&p('y')), Some(Ordering::Greater));
    assert_eq!(p('u').partial_cmp(&p('a')), Some(Ordering::Greater));
    assert_eq!(p('a').partial_cmp(&p('ə')), Some(Ordering::Greater));
    assert_eq!(p('p').partial_cmp(&p('p')), Some(Ordering::Equal));
    assert!(p('m') < p('p'));
    assert!(p('p').is_above(p('m')));
    assert_eq!(p('p'), Phone::Consonant(p_consonant()));
    assert_eq!(p_consonant().pair().map(Phone::Consonant), Some(p('b')));
    assert_eq!(
        Consonant { place: ConsonantPlace::Alveolar, manner: ConsonantManner::Nasal, phonation: Phonation::Voiced }
            .pair(),
        None
    );
    let a = Vowel { height: Height::Open, backness: Backness::Front, roundness: Roundness::UnRounded };
    assert_eq!(a.pair().map(Phone::Vowel), Some(p('ɶ')));
    let schwa = Vowel { height: Height::Mid, backness: Backness::Central, roundness: Roundness::Undefined };
    assert_eq!(schwa.pair(), None);
    assert_eq!(Roundness::Rounded.pair(), Some(Roundness::UnRounded));
    assert_eq!(Phonation::BreathyVoiced.pair(), None);
}

fn p_consonant() -> Consonant {
    Consonant {
        place: ConsonantPlace::Bilabial,
        manner: ConsonantManner::Stop,
        phonation: Phonation::Voiceless,
    }
}

#[test]
fn the_classes_of_a_phone() {
    let p = |c| Phone::from_ipa(c).unwrap();
    assert_eq!(p('p').classes(), Some(vec!["C", "M", "P", "S"]));
    assert_eq!(p('z').classes(), Some(vec!["C", "D", "X", "Z"]));
    assert_eq!(p('ʔ').classes(), Some(vec!["C", "T", "P", "S"]));
    assert_eq!(p('r').classes(), Some(vec!["C", "D", "N", "Z"]));
    assert_eq!(p('j').classes(), Some(vec!["C", "J", "W", "Z"]));
    assert_eq!(p('a').classes(), Some(vec!["V", "L", "F", "U"]));
    assert_eq!(p('u').classes(), Some(vec!["V", "H", "B", "O"]));
    assert_eq!(p('ə').classes(), Some(vec!["V", "O", "A", "Y"]));
    assert_eq!(p('e').classes(), Some(vec!["V", "E", "F", "U"]));
    assert_eq!(p('ː').classes(), None);
}

#[test]
fn the_tests_on_the_place_of_a_letter() {
    let classes = vec![("V".to_string(), strings(&["a", "e"]))];
    let word: Vec<char> = "ngana".chars().collect();
    for at in 0..7 {
        let begins = resolve_condition_type(&classes, &word, at, 1, &ConditionType::BeginningWord);
        assert_eq!(begins, at == 0);
        let ends = resolve_condition_type(&classes, &word, at, 2, &ConditionType::EndWord);
        assert_eq!(ends, at == 3);
    }
    let followed = ConditionType::FollowedBy("Vn".to_string());
    assert!(resolve_condition_type(&classes, &word, 0, 2, &followed));
    assert!(!resolve_condition_type(&classes, &word, 0, 1, &followed));
    assert!(!resolve_condition_type(&classes, &word, 2, usize::MAX, &followed));
    let nothing = ConditionType::FollowedBy("".to_string());
    assert!(resolve_condition_type(&classes, &word, 2, usize::MAX, &nothing));
    assert!(resolve_condition(&classes, &word, 3, 1, &Condition::Always));
    assert!(resolve_condition(&classes, &word, 3, 1, &Condition::Not(followed)));
}
