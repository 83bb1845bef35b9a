use lexibook::sound_system::rules::{
    rewrite_match, rewrite_word, sound_trasformation, History, Transformation,
};
use lexibook::sound_system::{Rule, SoundSystem};

fn create_sound_system(classes: Vec<(String, Vec<String>)>, rules: Vec<Rule>) -> SoundSystem {
    SoundSystem::new(classes, vec![], vec![], vec![], rules)
}

fn strings(items: &[&str]) -> Vec<String> {
    items.iter().map(|s| s.to_string()).collect()
}

#[test]
fn rules_test_expand() {
    let mut sound_system = create_sound_system(
        vec![
            ("S".to_string(), strings(&["p", "t", "c"])),
            ("Z".to_string(), strings(&["b", "d", "g"])),
        ],
        vec![Rule::SoundRule {
            name: "V_*V: S -> Z".to_string(),
            regex: "(a|e|o|y|ä|wa|ë|we|ö|wo)(?P<input>(?P<S>p|t|g))(.*?)(a|e|o|y|ä|wa|ë|we|ö|wo)"
                .to_string(),
            replacement: Some("Z".to_string()),
        }],
    );
    let words = vec!["apxal".to_string()];
    let result = sound_system.sound_trasformation(words);
    assert_eq!(
        result,
        Transformation {
            output: vec!["abxal".to_string()],
            history: vec![History {
                rule: "V_*V: S -> Z".to_string(),
                words: vec!["abxal".to_string()],
            }]
        }
    )
}

#[test]
fn rules_test_replace_class_to_letter() {
    let mut sound_system = create_sound_system(
        vec![("S".to_string(), strings(&["p", "t", "c"]))],
        vec![Rule::SoundRule {
            name: "V_V: S -> x".to_string(),
            regex: "(a|e|o|y|ja|wa|je|we|jo|wo)(?P<input>(?P<S>p|t|c))(a|e|o|y|ja|wa|je|we|jo|wo)"
                .to_string(),
            replacement: Some("x".to_string()),
        }],
    );
    let words = vec!["apaepal".to_string()];
    let result = sound_system.sound_trasformation(words);
    assert_eq!(
        result,
        Transformation {
            output: vec!["axaexal".to_string()],
            history: vec![History {
                rule: "V_V: S -> x".to_string(),
                words: vec!["axaexal".to_string()],
            }]
        }
    )
}

#[test]
fn rules_test_unknown_replacement_class() {
    let mut sound_system = create_sound_system(
        vec![("S".to_string(), strings(&["p", "t", "c"]))],
        vec![Rule::SoundRule {
            name: "V_V: S -> Z".to_string(),
            regex: "(a|e|o|y|ja|wa|je|we|jo|wo)(?P<input>(?P<S>p|t|c))(a|e|o|y|ja|wa|je|we|jo|wo)"
                .to_string(),
            replacement: Some("Z".to_string()),
        }],
    );
    let words = vec!["apal".to_string()];
    let result = sound_system.sound_trasformation(words);
    assert_eq!(
        result,
        Transformation {
            output: vec!["apal".to_string()],
            history: vec![History {
                rule: "V_V: S -> Z".to_string(),
                words: vec!["apal".to_string()],
            }]
        }
    )
}

#[test]
fn rules_test_sound_transformation() {
    let mut sound_system = create_sound_system(
        vec![
            ("S".to_string(), strings(&["p", "t", "c"])),
            ("Z".to_string(), strings(&["b", "d", "g"])),
        ],
        vec![
            Rule::SoundRule {
                name: "#_: l -> ".to_string(),
                regex: "^(?P<input>l)".to_string(),
                replacement: None,
            },
            Rule::SoundRule {
                name: "_#: l -> ".to_string(),
                regex: "(?P<input>l)$".to_string(),
                replacement: None,
            },
            Rule::SoundRule {
                name: "V_V: S -> Z".to_string(),
                regex:
                    "(a|e|o|y|ja|wa|je|we|jo|wo)(?P<input>(?P<S>p|t|c))(a|e|o|y|ja|wa|je|we|jo|wo)"
                        .to_string(),
                replacement: Some("Z".to_string()),
            },
        ],
    );

    let words = vec!["la".to_string(), "apaacal".to_string()];
    let result = sound_trasformation(&mut sound_system, words);
    assert_eq!(
        result,
        Transformation {
            output: vec!["a".to_string(), "abaaga".to_string()],
            history: vec![
                History {
                    rule: "#_: l -> ".to_string(),
                    words: vec!["a".to_string(), "apaacal".to_string()],
                },
                History {
                    rule: "_#: l -> ".to_string(),
                    words: vec!["a".to_string(), "apaaca".to_string()],
                },
                History {
                    rule: "V_V: S -> Z".to_string(),
                    words: vec!["a".to_string(), "abaaga".to_string()],
                }
            ]
        }
    )
}

#[test]
fn a_rule_that_never_matches_changes_nothing() {
    let mut sound_system = create_sound_system(
        vec![],
        vec![Rule::SoundRule {
            name: "q_: x -> y".to_string(),
            regex: "q(?P<input>x)".to_string(),
            replacement: Some("y".to_string()),
        }],
    );
    let words = strings(&["la", "apaacal", "ëxö"]);
    let result = sound_system.sound_trasformation(words.clone());
    assert_eq!(result.output, words);
    assert_eq!(result.history.len(), 1);
    assert_eq!(result.history[0].words, words);
}

#[test]
fn a_pattern_that_does_not_compile_changes_nothing() {
    let mut sound_system = create_sound_system(
        vec![],
        vec![Rule::SoundRule {
            name: "broken".to_string(),
            regex: "(?P<input>l".to_string(),
            replacement: None,
        }],
    );
    let words = strings(&["la"]);
    let result = sound_system.sound_trasformation(words.clone());
    assert_eq!(result.output, words);
    assert_eq!(result.history[0].rule, "broken");
}

#[test]
fn matches_in_words_with_wide_characters_are_cut_at_the_right_bytes() {
    let mut sound_system = create_sound_system(
        vec![
            ("S".to_string(), strings(&["p", "t", "c"])),
            ("Z".to_string(), strings(&["b", "d", "g"])),
        ],
        vec![Rule::SoundRule {
            name: "V_V: S -> Z".to_string(),
            regex: "(ä|ö)(?P<input>(?P<S>p|t|c))(ä|ö)".to_string(),
            replacement: Some("Z".to_string()),
        }],
    );
    let result = sound_system.sound_trasformation(strings(&["ëätöë", "öcäpö"]));
    assert_eq!(result.output, strings(&["ëädöë", "ögäpö"]));
}

#[test]
fn test_expand() {
    let mut sound_system = create_sound_system(
        vec![
            ("S".to_string(), strings(&["p", "t", "c"])),
            ("Z".to_string(), strings(&["b", "d", "g"])),
        ],
        vec![Rule::SoundRule {
            name: "V_*V: S -> Z".to_string(),
            regex: "(a|e|o|y|ä|wa|ë|we|ö|wo)(?P<input>(?P<S>p|t|g))(.*?)(a|e|o|y|ä|wa|ë|we|ö|wo)"
                .to_string(),
            replacement: Some("Z".to_string()),
        }],
    );
    let words = vec!["apxal".to_string()];
    let result = sound_system.sound_trasformation(words);
    assert_eq!(
        result,
        Transformation {
            output: vec!["abxal".to_string()],
            history: vec![History {
                rule: "V_*V: S -> Z".to_string(),
                words: vec!["abxal".to_string()],
            }]
        }
    )
}

#[test]
fn test_replace_class_to_letter() {
    let mut sound_system = create_sound_system(
        vec![("S".to_string(), strings(&["p", "t", "c"]))],
        vec![Rule::SoundRule {
            name: "V_V: S -> x".to_string(),
            regex: "(a|e|o|y|ja|wa|je|we|jo|wo)(?P<input>(?P<S>p|t|c))(a|e|o|y|ja|wa|je|we|jo|wo)"
                .to_string(),
            replacement: Some("x".to_string()),
        }],
    );
    let words = vec!["apaepal".to_string()];
    let result = sound_system.sound_trasformation(words);
    assert_eq!(
        result,
        Transformation {
            output: vec!["axaexal".to_string()],
            history: vec![History {
                rule: "V_V: S -> x".to_string(),
                words: vec!["axaexal".to_string()],
            }]
        }
    )
}

#[test]
fn test_unknown_replacement_class() {
    let mut sound_system = create_sound_system(
        vec![("S".to_string(), strings(&["p", "t", "c"]))],
        vec![Rule::SoundRule {
            name: "V_V: S -> Z".to_string(),
            regex: "(a|e|o|y|ja|wa|je|we|jo|wo)(?P<input>(?P<S>p|t|c))(a|e|o|y|ja|wa|je|we|jo|wo)"
                .to_string(),
            replacement: Some("Z".to_string()),
        }],
    );
    let words = vec!["apal".to_string()];
    let result = sound_system.sound_trasformation(words);
    assert_eq!(
        result,
        Transformation {
            output: vec!["apal".to_string()],
            history: vec![History {
                rule: "V_V: S -> Z".to_string(),
                words: vec!["apal".to_string()],
            }]
        }
    )
}

#[test]
fn test_sound_transformation() {
    let mut sound_system = create_sound_system(
        vec![
            ("S".to_string(), strings(&["p", "t", "c"])),
            ("Z".to_string(), strings(&["b", "d", "g"])),
        ],
        vec![
            Rule::SoundRule {
                name: "#_: l -> ".to_string(),
                regex: "^(?P<input>l)".to_string(),
                replacement: None,
            },
            Rule::SoundRule {
                name: "_#: l -> ".to_string(),
                regex: "(?P<input>l)$".to_string(),
                replacement: None,
            },
            Rule::SoundRule {
                name: "V_V: S -> Z".to_string(),
                regex:
                    "(a|e|o|y|ja|wa|je|we|jo|wo)(?P<input>(?P<S>p|t|c))(a|e|o|y|ja|wa|je|we|jo|wo)"
                        .to_string(),
                replacement: Some("Z".to_string()),
            },
        ],
    );

    let words = vec!["la".to_string(), "apaacal".to_string()];
    let result = sound_trasformation(&mut sound_system, words);
    assert_eq!(
        result,
        Transformation {
            output: vec!["a".to_string(), "abaaga".to_string()],
            history: vec![
                History {
                    rule: "#_: l -> ".to_string(),
                    words: vec!["a".to_string(), "apaacal".to_string()],
                },
                History {
                    rule: "_#: l -> ".to_string(),
                    words: vec!["a".to_string(), "apaaca".to_string()],
                },
                History {
                    rule: "V_V: S -> Z".to_string(),
                    words: vec!["a".to_string(), "abaaga".to_string()],
                }
            ]
        }
    )
}

#[test]
fn a_captured_letter_that_is_no_letter_of_its_class_is_kept() {
    let mut sound_system = create_sound_system(
        vec![
            ("S".to_string(), strings(&["p", "t", "c"])),
            ("Z".to_string(), strings(&["b", "d", "g"])),
        ],
        vec![Rule::SoundRule {
            name: "V_*V: S -> Z".to_string(),
            regex: "(a|e|o|y|ä|wa|ë|we|ö|wo)(?P<input>(?P<S>p|t|g))(.*?)(a|e|o|y|ä|wa|ë|we|ö|wo)"
                .to_string(),
            replacement: Some("Z".to_string()),
        }],
    );
    let result = sound_system.sound_trasformation(strings(&["agxal", "atxal"]));
    assert_eq!(result.output, strings(&["agxal", "adxal"]));
}

#[test]
fn a_captured_letter_of_a_class_that_is_not_declared_is_kept() {
    let mut sound_system = create_sound_system(
        vec![("Z".to_string(), strings(&["b", "d", "g"]))],
        vec![Rule::SoundRule {
            name: "V_V: S -> Z".to_string(),
            regex: "(a)(?P<input>(?P<S>p|t))(a)".to_string(),
            replacement: Some("xZy".to_string()),
        }],
    );
    let result = sound_system.sound_trasformation(strings(&["apa"]));
    assert_eq!(result.output, strings(&["axpya"]));
}

#[test]
fn the_groups_around_a_single_named_group_are_kept() {
    let mut sound_system = create_sound_system(
        vec![],
        vec![
            Rule::SoundRule {
                name: "V_V : l -> r".to_string(),
                regex: "(a|e)(?P<input>l)(a|e)".to_string(),
                replacement: Some("r".to_string()),
            },
            Rule::SoundRule {
                name: "_V : h -> ".to_string(),
                regex: "(?P<input>h)(a|e)".to_string(),
                replacement: None,
            },
        ],
    );
    let result = sound_system.sound_trasformation(strings(&["ala", "elele", "ha", "lal"]));
    assert_eq!(result.history[0].words, strings(&["ara", "erele", "ha", "lal"]));
    assert_eq!(result.output, strings(&["ara", "erele", "a", "lal"]));
}

#[test]
fn what_is_matched_outside_of_any_group_is_not_kept() {
    let names = vec![None, Some("input".to_string())];
    let groups = vec![Some("alb".to_string()), Some("l".to_string())];
    assert_eq!(rewrite_match(&vec![], &names, &Some("r".to_string()), &groups), "r");
    assert_eq!(rewrite_match(&vec![], &names, &None, &groups), "");
    let unnamed = vec![None, None];
    assert_eq!(rewrite_match(&vec![], &unnamed, &Some("r".to_string()), &groups), "r");
}

#[test]
fn a_word_is_rewritten_at_the_matches_given() {
    let classes = vec![
        ("S".to_string(), strings(&["p", "t"])),
        ("Z".to_string(), strings(&["b", "d"])),
    ];
    let names = vec![None, None, Some("input".to_string()), Some("S".to_string()), None];
    let found = vec![
        vec![Some((0, 3)), Some((0, 1)), Some((1, 2)), Some((1, 2)), Some((2, 3))],
        vec![Some((4, 7)), Some((4, 5)), Some((5, 6)), Some((5, 6)), Some((6, 7))],
    ];
    let replacement = Some("Z".to_string());
    assert_eq!(rewrite_word(&classes, &names, &replacement, "apaxatal", &found), "abaxadal");
    assert_eq!(rewrite_word(&classes, &names, &replacement, "apaxatal", &vec![]), "apaxatal");
    let one = vec![vec![Some((4, 7)), Some((4, 5)), Some((5, 6)), None, Some((6, 7))]];
    assert_eq!(rewrite_word(&classes, &names, &replacement, "apaxatal", &one), "apaxaal");
    let odd = vec![vec![Some((9, 2))]];
    assert_eq!(rewrite_word(&classes, &names, &replacement, "apa", &odd), "a");
}
