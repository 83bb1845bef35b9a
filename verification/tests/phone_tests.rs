use lexibook::sound_system::convert_ipa_letters_to_sounds;
use lexibook::sound_system::phone::{
    Backness, Consonant, ConsonantManner, ConsonantPlace, Height, Phonation, Phone, Roundness,
    Vowel,
};
use std::cmp::Ordering;

#[test]
fn test_manner_order() {
    let result = ConsonantManner::Nasal.cmp(&ConsonantManner::Stop);
    assert_eq!(result, Ordering::Greater)
}

#[test]
fn compiler_test_convert_ipa_letters_to_sounds() {
    let letters = "an";
    let result = convert_ipa_letters_to_sounds(letters);
    assert_eq!(
        result,
        vec![
            Phone::Vowel(Vowel {
                height: Height::Open,
                backness: Backness::Front,
                roundness: Roundness::UnRounded,
            }),
            Phone::Consonant(Consonant {
                place: ConsonantPlace::Alveolar,
                manner: ConsonantManner::Nasal,
                phonation: Phonation::Voiced
            })
        ]
    )
}

#[test]
fn test_convert_ipa_letters_to_sounds() {
    let letters = "an";
    let result = convert_ipa_letters_to_sounds(letters);
    assert_eq!(
        result,
        vec![
            Phone::Vowel(Vowel {
                height: Height::Open,
                backness: Backness::Front,
                roundness: Roundness::UnRounded,
            }),
            Phone::Consonant(Consonant {
                place: ConsonantPlace::Alveolar,
                manner: ConsonantManner::Nasal,
                phonation: Phonation::Voiced
            })
        ]
    )
}
