use lexibook::sound_system::compiler::{
    expand, frequency, rule_to_phoneme_differences, rule_to_regex,
};
use lexibook::sound_system::phone::{
    Backness, CoArticulation, Consonant, ConsonantManner, ConsonantPlace, Height, Phonation, Phone,
    PhoneProperty, Roundness, Vowel,
};
use lexibook::sound_system::{
    Condition, ConditionType, MonoSyllableRepartition, PhonemeDifference, Rule, SoundSystem,
};
use lexibook::wgl;
use lexibook::wgl::{Ast, Environment, Letter, TransformationRule};

fn strings(items: &[&str]) -> Vec<String> {
    items.iter().map(|s| s.to_string()).collect()
}

fn class(name: &str, letters: &[&str]) -> (String, Vec<String>) {
    (name.to_string(), strings(letters))
}

fn letters(items: &[&str]) -> Vec<Letter> {
    items.iter().map(|s| Letter { letter: s.to_string(), frequency: 0 }).collect()
}

fn ast(letter_names: &[&str]) -> Ast {
    Ast {
        imports: vec![],
        letters: letters(letter_names),
        classes: vec![],
        syllables: vec![],
        rules: vec![],
        phonemes: vec![],
    }
}

fn sound_rule(environment: &str, input: &str, output: Option<&str>) -> TransformationRule {
    TransformationRule::SoundRule {
        environment: if environment == "_" {
            Environment::All
        } else {
            Environment::Match(environment.to_string())
        },
        input: input.to_string(),
        output: output.map(|s| s.to_string()),
    }
}

fn letters_of<'a>(system: &'a SoundSystem, name: &str) -> Option<&'a Vec<String>> {
    system.classes().iter().rev().find(|(n, _)| n == name).map(|(_, l)| l)
}

fn vowel(height: Height, backness: Backness, roundness: Roundness) -> Phone {
    Phone::Vowel(Vowel { height, backness, roundness })
}

fn consonant(place: ConsonantPlace, manner: ConsonantManner, phonation: Phonation) -> Phone {
    Phone::Consonant(Consonant { place, manner, phonation })
}

#[test]
fn expand_multiplies_by_the_letters_of_each_class() {
    let classes = vec![class("S", &["p", "t"]), class("V", &["a", "e", "o"])];
    assert_eq!(expand(&classes, "SV"), strings(&["pa", "pe", "po", "ta", "te", "to"]));
    assert_eq!(expand(&classes, "xS"), strings(&["xp", "xt"]));
    assert_eq!(expand(&classes, "Sn"), strings(&["pn", "tn"]));
    assert_eq!(expand(&classes, "aa"), strings(&["aa"]));
    assert_eq!(expand(&classes, ""), Vec::<String>::new());
}

#[test]
fn expand_passes_over_a_class_that_is_not_declared() {
    let classes = vec![class("S", &["p", "t"])];
    assert_eq!(expand(&classes, "SQ"), strings(&["p", "t"]));
    assert_eq!(expand(&classes, "Q"), Vec::<String>::new());
}

#[test]
fn expand_starts_again_after_an_empty_class() {
    let classes = vec![class("S", &[]), class("V", &["a"])];
    assert_eq!(expand(&classes, "xSy"), strings(&["y"]));
}

#[test]
fn expand_takes_nasal_vowels_apart() {
    let classes = vec![class("V", &["a", "o"])];
    assert_eq!(expand(&classes, "Ṽ"), strings(&["a\u{303}", "o\u{303}"]));
    assert_eq!(expand(&classes, "Vn"), strings(&["an", "on"]));
}

#[test]
fn a_later_class_of_the_same_name_counts() {
    let classes = vec![class("V", &["a", "o"]), class("V", &["i"])];
    assert_eq!(expand(&classes, "V"), strings(&["i"]));
}

#[test]
fn rule_to_regex_puts_the_input_into_the_environment() {
    let classes = vec![
        class("V", &["a", "e", "o", "y", "ja", "wa", "je", "we", "jo", "wo"]),
        class("S", &["p", "t", "c"]),
    ];
    assert_eq!(
        rule_to_regex(&classes, &sound_rule("V_V", "S", Some("Z"))),
        "(a|e|o|y|ja|wa|je|we|jo|wo)(?P<input>(?P<S>p|t|c))(a|e|o|y|ja|wa|je|we|jo|wo)"
    );
    assert_eq!(rule_to_regex(&classes, &sound_rule("#_", "l", None)), "^(?P<input>l)");
    assert_eq!(rule_to_regex(&classes, &sound_rule("_#", "l", None)), "(?P<input>l)$");
    assert_eq!(rule_to_regex(&classes, &sound_rule("_", "l", None)), "(?P<input>l)");
    assert_eq!(
        rule_to_regex(&classes, &sound_rule("S_*x", "w", None)),
        "(p|t|c)(?P<input>w)(.*?)x"
    );
    assert_eq!(rule_to_regex(&classes, &sound_rule("Q_", "Qw", None)), "(?P<input>w)");
}

#[test]
fn phoneme_rule_without_output_deletes() {
    let classes = vec![class("V", &["a", "e"])];
    assert_eq!(
        rule_to_phoneme_differences(&classes, "Vn", None),
        vec![
            PhonemeDifference::Delete("an".to_string()),
            PhonemeDifference::Delete("en".to_string())
        ]
    );
}

#[test]
fn phoneme_rule_pairs_inputs_with_outputs_as_far_as_both_go() {
    let classes = vec![class("V", &["a", "e"]), class("W", &["o"])];
    let nasal = Phone::Diacritic(PhoneProperty::CoArticulation(CoArticulation::Nasalized));
    assert_eq!(
        rule_to_phoneme_differences(&classes, "Vn", Some("Ṽ".to_string())),
        vec![
            PhonemeDifference::Upsert(
                "an".to_string(),
                vec![vowel(Height::Open, Backness::Front, Roundness::UnRounded), nasal]
            ),
            PhonemeDifference::Upsert(
                "en".to_string(),
                vec![vowel(Height::CloseMid, Backness::Front, Roundness::UnRounded), nasal]
            ),
        ]
    );
    assert_eq!(
        rule_to_phoneme_differences(&classes, "V", Some("W".to_string())),
        vec![PhonemeDifference::Upsert(
            "a".to_string(),
            vec![vowel(Height::CloseMid, Backness::Back, Roundness::Rounded)]
        )]
    );
}

#[test]
fn frequency_keeps_weights_that_differ() {
    let declared = vec![
        Letter { letter: "a".to_string(), frequency: 3 },
        Letter { letter: "b".to_string(), frequency: 1 },
    ];
    assert_eq!(
        frequency(&declared, &vec![20, 10]),
        vec![("a".to_string(), 3), ("b".to_string(), 1)]
    );
}

#[test]
fn frequency_weighs_by_rank_where_all_weights_are_alike() {
    let by_rank = vec![20068666, 10034333, 4164624];
    assert_eq!(
        frequency(&letters(&["e", "a", "c"]), &by_rank),
        vec![("e".to_string(), 20068666), ("a".to_string(), 10034333), ("c".to_string(), 4164624)]
    );
    let same = vec![
        Letter { letter: "e".to_string(), frequency: 7 },
        Letter { letter: "a".to_string(), frequency: 7 },
    ];
    assert_eq!(
        frequency(&same, &vec![5]),
        vec![("e".to_string(), 5), ("a".to_string(), 0)]
    );
    assert_eq!(frequency(&vec![], &by_rank), vec![]);
}

#[test]
fn compile_spells_every_letter_as_itself() {
    let system = SoundSystem::compile(ast(&["a", "n", "th", "1"]), &vec![4, 3, 2, 1]);
    assert_eq!(
        system.phonemes_sorted(),
        &vec![
            (
                "th".to_string(),
                vec![(
                    vec![
                        consonant(
                            ConsonantPlace::Alveolar,
                            ConsonantManner::Stop,
                            Phonation::Voiceless
                        ),
                        consonant(
                            ConsonantPlace::Glottal,
                            ConsonantManner::Fricative,
                            Phonation::Voiceless
                        )
                    ],
                    Condition::Always
                )]
            ),
            (
                "a".to_string(),
                vec![(
                    vec![vowel(Height::Open, Backness::Front, Roundness::UnRounded)],
                    Condition::Always
                )]
            ),
            (
                "n".to_string(),
                vec![(
                    vec![consonant(
                        ConsonantPlace::Alveolar,
                        ConsonantManner::Nasal,
                        Phonation::Voiced
                    )],
                    Condition::Always
                )]
            ),
            ("1".to_string(), vec![(vec![], Condition::Always)]),
        ]
    );
    assert_eq!(
        system.distribution(),
        &vec![
            ("a".to_string(), 4),
            ("n".to_string(), 3),
            ("th".to_string(), 2),
            ("1".to_string(), 1)
        ]
    );
}

#[test]
fn compile_enters_the_written_pronunciations() {
    let mut description = ast(&["h", "c"]);
    description.phonemes = vec![
        (
            "c".to_string(),
            vec![wgl::Phoneme { notation: "k".to_string(), condition: wgl::Condition::Always }],
        ),
        (
            "h".to_string(),
            vec![wgl::Phoneme {
                notation: "x".to_string(),
                condition: wgl::Condition::Single(wgl::ConditionType::BeginningWord),
            }],
        ),
        (
            "th".to_string(),
            vec![wgl::Phoneme { notation: "θ".to_string(), condition: wgl::Condition::Always }],
        ),
    ];
    let system = SoundSystem::compile(description, &vec![2, 1]);
    let velar_stop =
        consonant(ConsonantPlace::Velar, ConsonantManner::Stop, Phonation::Voiceless);
    let glottal =
        consonant(ConsonantPlace::Glottal, ConsonantManner::Fricative, Phonation::Voiceless);
    let velar =
        consonant(ConsonantPlace::Velar, ConsonantManner::Fricative, Phonation::Voiceless);
    let dental =
        consonant(ConsonantPlace::Dental, ConsonantManner::Fricative, Phonation::Voiceless);
    assert_eq!(
        system.phonemes_sorted(),
        &vec![
            ("th".to_string(), vec![(vec![dental], Condition::Always)]),
            (
                "h".to_string(),
                vec![
                    (vec![glottal], Condition::Always),
                    (vec![velar], Condition::Single(ConditionType::BeginningWord))
                ]
            ),
            ("c".to_string(), vec![(vec![velar_stop], Condition::Always)]),
        ]
    );
    assert_eq!(system.ipa_representation("hchth"), "xkhθ");
}

#[test]
fn compile_infers_classes_from_the_phones() {
    let system = SoundSystem::compile(ast(&["a", "b", "p", "t", "d", "u"]), &vec![]);
    assert_eq!(letters_of(&system, "V"), Some(&strings(&["u", "a"])));
    assert_eq!(letters_of(&system, "C"), Some(&strings(&["p", "b", "t", "d"])));
    assert_eq!(letters_of(&system, "S"), Some(&strings(&["p", "t"])));
    assert_eq!(letters_of(&system, "Z"), Some(&strings(&["b", "d"])));
    assert_eq!(letters_of(&system, "P"), Some(&strings(&["p", "b", "t", "d"])));
    assert_eq!(letters_of(&system, "M"), Some(&strings(&["p", "b"])));
    assert_eq!(letters_of(&system, "D"), Some(&strings(&["t", "d"])));
    assert_eq!(letters_of(&system, "L"), Some(&strings(&["a"])));
    assert_eq!(letters_of(&system, "H"), Some(&strings(&["u"])));
    assert_eq!(letters_of(&system, "X"), None);
}

#[test]
fn a_declared_class_takes_the_place_of_an_inferred_one() {
    let mut description = ast(&["a", "p", "t"]);
    description.classes = vec![class("S", &["t"]), class("R", &["p", "a"])];
    let system = SoundSystem::compile(description, &vec![]);
    assert_eq!(letters_of(&system, "S"), Some(&strings(&["t"])));
    assert_eq!(letters_of(&system, "R"), Some(&strings(&["p", "a"])));
    assert_eq!(letters_of(&system, "C"), Some(&strings(&["p", "t"])));
    let names: Vec<&str> = system.classes().iter().map(|(name, _)| name.as_str()).collect();
    assert_eq!(names.iter().filter(|name| **name == "S").count(), 1);
    assert_eq!(names.last(), Some(&"R"));
    let mut sorted = names.clone();
    sorted.sort();
    sorted.dedup();
    assert_eq!(sorted.len(), names.len());
}

#[test]
fn compile_makes_the_rules_ready() {
    let mut description = ast(&["a", "p", "b", "n"]);
    description.rules = vec![
        sound_rule("V_V", "S", Some("Z")),
        TransformationRule::PhonemeRule { input: "an".to_string(), output: None },
    ];
    description.syllables = vec![strings(&["C", "V"]), strings(&["V"])];
    let mut system = SoundSystem::compile(description, &vec![]);
    assert_eq!(
        system.rules(),
        &vec![
            Rule::SoundRule {
                name: "V_V : S -> Z".to_string(),
                regex: "(a)(?P<input>(?P<S>p))(a)".to_string(),
                replacement: Some("Z".to_string()),
            },
            Rule::PhonemeRule {
                name: "an ~> ".to_string(),
                phoneme_differences: vec![PhonemeDifference::Delete("an".to_string())],
            },
        ]
    );
    assert_eq!(system.syllables(), &vec![strings(&["C", "V"]), strings(&["V"])]);
    let done = system.sound_trasformation(strings(&["apa", "ana"]));
    assert_eq!(done.output, strings(&["aba", "ana"]));
}

#[test]
fn a_minimal_description_gives_one_word_of_its_letters() {
    let mut description = ast(&["a", "e"]);
    description.classes = vec![class("K", &["a", "e"])];
    description.syllables = vec![strings(&["K"])];
    let system = SoundSystem::compile(description, &vec![2, 1]);
    for _ in 0..50 {
        let words = system.generate_words(1, MonoSyllableRepartition::Always);
        assert_eq!(words.len(), 1);
        assert!(words[0] == "a" || words[0] == "e");
    }
}

#[test]
fn of_a_class_given_twice_the_later_letters_count() {
    let system = SoundSystem::new(
        vec![class("V", &["a", "o"]), class("C", &["p"]), class("V", &["i"])],
        vec![],
        vec![],
        vec![],
        vec![],
    );
    assert_eq!(system.classes(), &vec![class("V", &["i"]), class("C", &["p"])]);
}
