use lexibook::sound_system::{MonoSyllableRepartition, SoundSystem};
use lexibook::wgl::parser::{from_string, Expected, ParseError};
use lexibook::wgl::{
    Ast, Condition, ConditionType, Environment, Letter, Phoneme, TransformationRule,
};

const INPUT: &str = "import:  std-assimilations ./src/test
letters: l, h, t, a, b, d, e, o, y, w, ä, ë, ö, m, n, p, t, c, g, x

phonemes:
  th /θ/ 
  ä /ja/ 
  ë /je/
  ö /jo/
  c /k/
  h /h/ at the beginning of word 

syllables: CV V RV

rules:
_C: w ->
C_#: w ->
Vn ~> Ṽ
aa ~> aː
ee ~> eː
V_V: S -> Z
";

fn strings(items: &[&str]) -> Vec<String> {
    items.iter().map(|s| s.to_string()).collect()
}

fn letter(name: &str, frequency: u64) -> Letter {
    Letter { letter: name.to_string(), frequency }
}

fn always(letter: &str, notation: &str) -> (String, Vec<Phoneme>) {
    (
        letter.to_string(),
        vec![Phoneme { notation: notation.to_string(), condition: Condition::Always }],
    )
}

fn sound(environment: &str, input: &str, output: Option<&str>) -> TransformationRule {
    TransformationRule::SoundRule {
        environment: Environment::Match(environment.to_string()),
        input: input.to_string(),
        output: output.map(|s| s.to_string()),
    }
}

fn phoneme(input: &str, output: Option<&str>) -> TransformationRule {
    TransformationRule::PhonemeRule {
        input: input.to_string(),
        output: output.map(|s| s.to_string()),
    }
}

fn error(line: usize, expected: Expected) -> Result<Ast, ParseError> {
    Err(ParseError { line, expected })
}

#[test]
fn a_whole_description_is_read() {
    let ast = from_string(INPUT).unwrap();
    assert_eq!(ast.imports, strings(&["std-assimilations", "./src/test"]));
    let names = [
        "l", "h", "t", "a", "b", "d", "e", "o", "y", "w", "ä", "ë", "ö", "m", "n", "p", "t", "c",
        "g", "x",
    ];
    assert_eq!(ast.letters, names.iter().map(|n| letter(n, 0)).collect::<Vec<_>>());
    assert_eq!(ast.classes, vec![]);
    assert_eq!(
        ast.syllables,
        vec![strings(&["C", "V"]), strings(&["V"]), strings(&["R", "V"])]
    );
    assert_eq!(
        ast.phonemes,
        vec![
            always("th", "θ"),
            always("ä", "ja"),
            always("ë", "je"),
            always("ö", "jo"),
            always("c", "k"),
            (
                "h".to_string(),
                vec![Phoneme {
                    notation: "h".to_string(),
                    condition: Condition::Single(ConditionType::BeginningWord),
                }]
            ),
        ]
    );
    assert_eq!(
        ast.rules,
        vec![
            sound("_C", "w", None),
            sound("C_#", "w", None),
            phoneme("Vn", Some("Ṽ")),
            phoneme("aa", Some("aː")),
            phoneme("ee", Some("eː")),
            sound("V_V", "S", Some("Z")),
        ]
    );
}

#[test]
fn an_empty_text_is_an_empty_description() {
    let empty = Ast {
        imports: vec![],
        letters: vec![],
        classes: vec![],
        syllables: vec![],
        rules: vec![],
        phonemes: vec![],
    };
    assert_eq!(from_string(""), Ok(empty));
    assert!(from_string("\n  \n\t\r\n").is_ok());
}

#[test]
fn weights_are_read_in_millionths() {
    let ast = from_string("letters: a:1, b:2.5 c:0.000001, d:12.3456789,e").unwrap();
    assert_eq!(
        ast.letters,
        vec![
            letter("a", 1_000_000),
            letter("b", 2_500_000),
            letter("c", 1),
            letter("d", 12_345_678),
            letter("e", 0),
        ]
    );
    assert_eq!(
        from_string("letters: a:18446744073709.551615").unwrap().letters,
        vec![letter("a", u64::MAX)]
    );
}

#[test]
fn a_weight_must_be_a_number_that_fits() {
    assert_eq!(from_string("letters: a:x"), error(1, Expected::Number));
    assert_eq!(from_string("letters: a:"), error(1, Expected::Number));
    assert_eq!(from_string("letters: a:.5"), error(1, Expected::Number));
    assert_eq!(from_string("letters: a:1.2.3"), error(1, Expected::Number));
    assert_eq!(from_string("letters: a:1.5x"), error(1, Expected::Number));
    assert_eq!(from_string("letters: a:18446744073709.551616"), error(1, Expected::Number));
    assert_eq!(from_string("\nletters: a\n b, :3"), error(3, Expected::Letter));
}

#[test]
fn letters_may_go_on_over_lines() {
    let ast = from_string("letters:\n  a, b\n\n  c\nletters: x\n y").unwrap();
    assert_eq!(ast.letters, vec![letter("x", 0), letter("y", 0)]);
    let ast = from_string("letters:\n  a, b\n\n  c").unwrap();
    assert_eq!(ast.letters, vec![letter("a", 0), letter("b", 0), letter("c", 0)]);
}

#[test]
fn classes_are_declared_with_an_equals_sign() {
    let ast = from_string("V = a e i\nC=p t\nletters: a\nE =\nV = o").unwrap();
    assert_eq!(
        ast.classes,
        vec![
            ("V".to_string(), strings(&["a", "e", "i"])),
            ("C".to_string(), strings(&["p", "t"])),
            ("E".to_string(), strings(&[])),
            ("V".to_string(), strings(&["o"])),
        ]
    );
    assert_eq!(from_string(" = a e"), error(1, Expected::ClassName));
    assert_eq!(from_string("A B = a e"), error(1, Expected::ClassName));
}

#[test]
fn a_class_ends_the_section_before_it() {
    assert_eq!(from_string("letters: a\nV = a\nb"), error(3, Expected::Section));
    assert_eq!(from_string("a b c"), error(1, Expected::Section));
}

#[test]
fn a_question_mark_makes_a_slot_optional() {
    let ast = from_string("syllables: CV? C?VC\n V").unwrap();
    assert_eq!(
        ast.syllables,
        vec![strings(&["C", "V?"]), strings(&["C?", "V", "C"]), strings(&["V"])]
    );
    assert_eq!(from_string("syllables: ?V"), error(1, Expected::Slot));
    assert_eq!(from_string("syllables: V??"), error(1, Expected::Slot));
}

#[test]
fn pronunciations_of_one_letter_are_kept_together() {
    let ast = from_string(
        "phonemes:\n c /k/\n g /g/\n c /s/ followed by \"e\"\n c /tʃ/ between a and \"i\"",
    )
    .unwrap();
    assert_eq!(
        ast.phonemes,
        vec![
            (
                "c".to_string(),
                vec![
                    Phoneme { notation: "k".to_string(), condition: Condition::Always },
                    Phoneme {
                        notation: "s".to_string(),
                        condition: Condition::Single(ConditionType::FollowedBy("e".to_string())),
                    },
                    Phoneme {
                        notation: "tʃ".to_string(),
                        condition: Condition::Single(ConditionType::Between(
                            "a".to_string(),
                            "i".to_string()
                        )),
                    },
                ]
            ),
            always("g", "g"),
        ]
    );
}

#[test]
fn conditions_are_joined_to_the_right() {
    let ast = from_string(
        "phonemes: e /ɛ/ NOT at the end of word AND followed by V OR at the beginning of word",
    )
    .unwrap();
    assert_eq!(
        ast.phonemes[0].1[0].condition,
        Condition::And(
            Box::new(Condition::Not(ConditionType::EndWord)),
            Box::new(Condition::Or(
                Box::new(Condition::Single(ConditionType::FollowedBy("V".to_string()))),
                Box::new(Condition::Single(ConditionType::BeginningWord)),
            )),
        )
    );
}

#[test]
fn a_pronunciation_must_be_well_written() {
    assert_eq!(from_string("phonemes:\n th"), error(2, Expected::Notation));
    assert_eq!(from_string("phonemes:\n th θ"), error(2, Expected::Notation));
    assert_eq!(from_string("phonemes:\n th /"), error(2, Expected::Notation));
    assert_eq!(from_string("phonemes:\n th /θ/ sometimes"), error(2, Expected::Condition));
    assert_eq!(from_string("phonemes:\n th /θ/ followed by"), error(2, Expected::Condition));
    assert_eq!(from_string("phonemes:\n th /θ/ NOT"), error(2, Expected::Condition));
    assert_eq!(
        from_string("phonemes:\n th /θ/ at the end of word AND"),
        error(2, Expected::Condition)
    );
    assert_eq!(
        from_string("phonemes:\n th /θ/ at the end of word then"),
        error(2, Expected::Operator)
    );
    assert_eq!(from_string("phonemes:\n th // ").unwrap().phonemes, vec![always("th", "")]);
}

#[test]
fn rules_are_told_apart_by_their_arrows() {
    let ast = from_string("rules: _ : l -> r\n l -> \n  #_*V:S->Z x \n a~>").unwrap();
    assert_eq!(
        ast.rules,
        vec![
            TransformationRule::SoundRule {
                environment: Environment::All,
                input: "l".to_string(),
                output: Some("r".to_string()),
            },
            TransformationRule::SoundRule {
                environment: Environment::All,
                input: "l".to_string(),
                output: None,
            },
            sound("#_*V", "S", Some("Z x")),
            phoneme("a", None),
        ]
    );
    assert_eq!(from_string("rules:\n l r"), error(2, Expected::Arrow));
    assert_eq!(from_string("rules:\n l >"), error(2, Expected::Arrow));
    assert_eq!(from_string("rules:\n -> r"), error(2, Expected::Input));
    assert_eq!(from_string("rules:\n ~> r"), error(2, Expected::Input));
    assert_eq!(from_string("rules:\n V_V: -> r"), error(2, Expected::Input));
    assert_eq!(from_string("rules:\n : l -> r"), error(2, Expected::Environment));
}

#[test]
fn the_first_error_is_reported() {
    assert_eq!(
        from_string("letters: a\nrules:\n l r\n also wrong\nletters: b:x"),
        error(3, Expected::Arrow)
    );
}

#[test]
fn a_description_can_be_compiled_and_used() {
    let ast = from_string(INPUT).unwrap();
    let mut system = SoundSystem::compile(ast, &vec![]);
    assert_eq!(system.ipa_representation("thähhx"), "θjahhx");
    let done = system.sound_trasformation(strings(&["wta", "twa", "apa", "atw"]));
    assert_eq!(done.output, strings(&["ta", "twa", "aba", "at"]));
    assert_eq!(done.history.len(), 6);
    assert_eq!(done.history[0].rule, "_C : w -> ");
    assert_eq!(done.history[2].rule, "Vn ~> Ṽ");
    assert_eq!(system.ipa_representation("anaa"), "a\u{303}aː");
    let words = system.generate_words(20, MonoSyllableRepartition::LessFrequent);
    assert!(words.len() <= 20);
}

#[test]
fn weights_written_out_are_read_back() {
    for weight in [1u64, 10, 999_999, 1_000_000, 1_000_001, 2_500_000, 123_456_789, u64::MAX] {
        let system =
            SoundSystem::new(vec![], vec![], vec![], vec![("a".to_string(), weight)], vec![]);
        let text = system.to_string();
        let line = text.lines().next().unwrap();
        let ast = from_string(line).unwrap();
        assert_eq!(ast.letters, vec![letter("a", weight)]);
    }
}
