use lexibook::sound_system::charts::{
    backness_columns, consonants_table, create_table, create_titles, height_rows, manner_rows,
    place_columns, vowels_table,
};
use lexibook::sound_system::phone::{ConsonantManner, Height, Phone};
use std::convert::TryFrom;
use lexibook::sound_system::rules::Transformation;
use lexibook::sound_system::{
    Condition, ConditionOperand, ConditionType, MonoSyllableRepartition, Rule, SoundSystem,
};
use lexibook::wgl::{Environment, TransformationRule};
use std::str::FromStr;

fn strings(items: &[&str]) -> Vec<String> {
    items.iter().map(|s| s.to_string()).collect()
}

fn phones(text: &str) -> Vec<Phone> {
    text.chars().filter_map(Phone::from_ipa).collect()
}

#[test]
fn names_of_features() {
    assert_eq!(ConsonantManner::SibilantFricative.to_string(), "Sibilant fricative");
    assert_eq!(ConsonantManner::LateralTap.to_string(), "Lateral tap");
    assert_eq!(ConsonantManner::Nasal.to_string(), "Nasal");
    assert_eq!(Height::NearClose.to_string(), "Near close");
    assert_eq!(Height::Open.to_string(), "Open");
}

#[test]
fn a_phone_is_written_with_its_character() {
    for c in "pbθʃŋaɶəɐ\u{303}ːʰ".chars() {
        assert_eq!(Phone::from_ipa(c).unwrap().to_string(), c.to_string());
    }
    assert_eq!(Phone::from_ipa('ɚ').unwrap().to_string(), "ə");
    assert_eq!(Phone::from_ipa('\u{30A}').unwrap().to_string(), "\u{325}");
    assert_eq!(Phone::from_ipa('!'), None);
    assert_eq!(Phone::try_from('p'), Ok(Phone::from_ipa('p').unwrap()));
    assert_eq!(Phone::try_from('!'), Err("no match"));
}

#[test]
fn every_character_that_is_read_can_be_written_and_read_back() {
    for code in 0u32..0x3000 {
        if let Some(c) = char::from_u32(code) {
            if let Some(phone) = Phone::from_ipa(c) {
                let written = phone.ipa().unwrap();
                assert_eq!(Phone::from_ipa(written), Some(phone));
            }
        }
    }
}

#[test]
fn conditions_are_written_as_they_are_read() {
    assert_eq!(Condition::Always.to_string(), "");
    assert_eq!(
        Condition::Single(ConditionType::BeginningWord).to_string(),
        "at the beginning of word"
    );
    assert_eq!(Condition::Not(ConditionType::EndWord).to_string(), "NOT at the end of word");
    assert_eq!(
        Condition::Single(ConditionType::FollowedBy("Vn".to_string())).to_string(),
        "followed by \"Vn\""
    );
    assert_eq!(
        Condition::Binary {
            operand: ConditionOperand::Or,
            left: Box::new(Condition::Single(ConditionType::Between(
                "a".to_string(),
                "b".to_string()
            ))),
            right: Box::new(Condition::Not(ConditionType::Empty)),
        }
        .to_string(),
        "between \"a\" and \"b\" OR NOT "
    );
    assert_eq!(ConditionOperand::And.to_string(), "AND");
}

#[test]
fn rules_are_written_with_their_arrows() {
    let rule = TransformationRule::SoundRule {
        environment: Environment::Match("V_V".to_string()),
        input: "S".to_string(),
        output: Some("Z".to_string()),
    };
    assert_eq!(rule.to_string(), "V_V : S -> Z");
    assert_eq!(rule.input(), "S");
    assert_eq!(rule.output(), Some("Z".to_string()));
    assert_eq!(rule.environment(), Some(&Environment::Match("V_V".to_string())));
    let everywhere = TransformationRule::SoundRule {
        environment: Environment::All,
        input: "l".to_string(),
        output: None,
    };
    assert_eq!(everywhere.to_string(), "_ : l -> ");
    assert_eq!(Environment::All.to_string(), "_");
    let change =
        TransformationRule::PhonemeRule { input: "Vn".to_string(), output: Some("Ṽ".to_string()) };
    assert_eq!(change.to_string(), "Vn ~> Ṽ");
    assert_eq!(change.environment(), None);
}

#[test]
fn repartitions_have_names() {
    assert_eq!(MonoSyllableRepartition::from_str("always"), Ok(MonoSyllableRepartition::Always));
    assert_eq!(
        MonoSyllableRepartition::from_str("less_frequent"),
        Ok(MonoSyllableRepartition::LessFrequent)
    );
    assert_eq!(MonoSyllableRepartition::from_name("never"), Some(MonoSyllableRepartition::Never));
    assert_eq!(MonoSyllableRepartition::from_name("rare"), Some(MonoSyllableRepartition::Rare));
    assert_eq!(MonoSyllableRepartition::from_name("mostly"), Some(MonoSyllableRepartition::Mostly));
    assert_eq!(
        MonoSyllableRepartition::from_name("frequent"),
        Some(MonoSyllableRepartition::Frequent)
    );
    assert_eq!(MonoSyllableRepartition::from_str("Always"), Err("no match"));
    assert_eq!(MonoSyllableRepartition::from_name(""), None);
}

#[test]
fn a_system_is_written_out_as_a_description() {
    let system = SoundSystem::new(
        vec![("V".to_string(), strings(&["a", "e"])), ("E".to_string(), vec![])],
        vec![
            ("a".to_string(), vec![(phones("a"), Condition::Always)]),
            (
                "th".to_string(),
                vec![
                    (phones("θ"), Condition::Always),
                    (phones("tʰ"), Condition::Single(ConditionType::EndWord)),
                ],
            ),
        ],
        vec![strings(&["C", "V?"]), strings(&["V"])],
        vec![
            ("a".to_string(), 0),
            ("e".to_string(), 2_500_000),
            ("th".to_string(), 12_000_000),
            ("x".to_string(), 1),
            ("y".to_string(), 1_000_001),
        ],
        vec![Rule::SoundRule {
            name: "V_V : S -> Z".to_string(),
            regex: "".to_string(),
            replacement: None,
        }],
    );
    assert_eq!(
        system.to_string(),
        "letters: a, e:2.5, th:12, x:0.000001, y:1.000001\n\
         \n\
         phonemes:\n  th /θ/ \n  th /tʰ/ at the end of word\n  a /a/ \n\
         \n\
         V = ae\n\
         \n\
         E = \n\
         \n\
         syllables: CV? V\n\
         \n\
         rules:\n\
         V_V : S -> Z\n"
    );
    assert_eq!(
        SoundSystem::with_default().to_string(),
        "letters: \n\nphonemes:\n\nsyllables: \n\nrules:\n"
    );
}

#[test]
fn the_charts_have_a_cell_for_each_pair_of_features() {
    assert_eq!(manner_rows().len(), 10);
    assert_eq!(place_columns().len(), 11);
    assert_eq!(height_rows().len(), 7);
    assert_eq!(backness_columns().len(), 3);
    let inventory = phones("pbwkmaɶue");
    let consonants = consonants_table(&inventory);
    assert_eq!(consonants.len(), 10);
    assert!(consonants.iter().all(|row| row.len() == 11));
    assert_eq!(consonants[1][0], "p b");
    assert_eq!(consonants[1][7], "k");
    assert_eq!(consonants[7][7], "w");
    assert_eq!(consonants[0][0], "m");
    assert_eq!(consonants[0][1], "");
    let vowels = vowels_table(&inventory);
    assert_eq!(vowels.len(), 7);
    assert!(vowels.iter().all(|row| row.len() == 3));
    assert_eq!(vowels[6][0], "a ɶ");
    assert_eq!(vowels[0][2], "u");
    assert_eq!(vowels[2][0], "e");
    assert_eq!(vowels[3][1], "");
    assert_eq!(consonants_table(&phones("pab"))[1][0], "p  b");
}

#[test]
fn the_table_of_changes_shows_what_each_rule_did() {
    let mut system = SoundSystem::new(
        vec![
            ("S".to_string(), strings(&["p", "t", "c"])),
            ("Z".to_string(), strings(&["b", "d", "g"])),
        ],
        vec![
            ("a".to_string(), vec![(phones("a"), Condition::Always)]),
            ("b".to_string(), vec![(phones("b"), Condition::Always)]),
        ],
        vec![],
        vec![],
        vec![
            Rule::SoundRule {
                name: "first".to_string(),
                regex: "^(?P<input>l)".to_string(),
                replacement: None,
            },
            Rule::SoundRule {
                name: "second".to_string(),
                regex: "(a)(?P<input>(?P<S>p|t|c))(a)".to_string(),
                replacement: Some("Z".to_string()),
            },
        ],
    );
    let words = strings(&["la", "apa", "x"]);
    let done = system.sound_trasformation(words.clone());
    assert_eq!(create_titles(&done), strings(&["Generated Word", "first", "second", "Final word", "IPA"]));
    assert_eq!(
        create_table(&system, &words, &done),
        vec![
            strings(&["la", "a", "", "a", "/a/"]),
            strings(&["apa", "", "aba", "aba", "/aba/"]),
            strings(&["x", "", "", "x", "//"]),
        ]
    );
    let nothing = Transformation::default();
    assert_eq!(create_titles(&nothing), strings(&["Generated Word"]));
    assert_eq!(create_table(&system, &words, &nothing), vec![strings(&["la"]), strings(&["apa"]), strings(&["x"])]);
}
