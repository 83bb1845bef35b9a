//! The table between phones and the characters of the International
//! Phonetic Alphabet.
//!
//! Reading is generous: several characters may stand for one phone. Writing
//! is single-valued: each phone has one preferred character.
use super::types::{
    Articulation, Backness, CoArticulation, Consonant, ConsonantManner, ConsonantPlace,
    ConsonantRelease, Height, Intonation, Phonation, Phone, PhoneProperty, Rhythm, Roundness,
    Tone, Vowel,
};
use vstd::prelude::*;

verus! {

/// The consonant that the character `c` stands for, if it stands for one.
pub open spec fn consonant_of_ipa(c: char) -> Option<Consonant> {
    match c {
        'p' => Some(Consonant { place: ConsonantPlace::Bilabial, manner: ConsonantManner::Stop, phonation: Phonation::Voiceless }),
        'b' => Some(Consonant { place: ConsonantPlace::Bilabial, manner: ConsonantManner::Stop, phonation: Phonation::Voiced }),
        't' => Some(Consonant { place: ConsonantPlace::Alveolar, manner: ConsonantManner::Stop, phonation: Phonation::Voiceless }),
        'd' => Some(Consonant { place: ConsonantPlace::Alveolar, manner: ConsonantManner::Stop, phonation: Phonation::Voiced }),
        '\u{288}' => Some(Consonant { place: ConsonantPlace::Retroflex, manner: ConsonantManner::Stop, phonation: Phonation::Voiceless }),
        '\u{256}' => Some(Consonant { place: ConsonantPlace::Retroflex, manner: ConsonantManner::Stop, phonation: Phonation::Voiced }),
        'c' => Some(Consonant { place: ConsonantPlace::Palatal, manner: ConsonantManner::Stop, phonation: Phonation::Voiceless }),
        '\u{25F}' => Some(Consonant { place: ConsonantPlace::Palatal, manner: ConsonantManner::Stop, phonation: Phonation::Voiced }),
        'k' => Some(Consonant { place: ConsonantPlace::Velar, manner: ConsonantManner::Stop, phonation: Phonation::Voiceless }),
        'g' => Some(Consonant { place: ConsonantPlace::Velar, manner: ConsonantManner::Stop, phonation: Phonation::Voiced }),
        'q' => Some(Consonant { place: ConsonantPlace::Uvular, manner: ConsonantManner::Stop, phonation: Phonation::Voiceless }),
        '\u{262}' => Some(Consonant { place: ConsonantPlace::Uvular, manner: ConsonantManner::Stop, phonation: Phonation::Voiced }),
        '\u{2A1}' => Some(Consonant { place: ConsonantPlace::Pharyngeal, manner: ConsonantManner::Stop, phonation: Phonation::Voiceless }),
        '\u{294}' => Some(Consonant { place: ConsonantPlace::Glottal, manner: ConsonantManner::Stop, phonation: Phonation::Voiceless }),
        'm' => Some(Consonant { place: ConsonantPlace::Bilabial, manner: ConsonantManner::Nasal, phonation: Phonation::Voiced }),
        '\u{271}' => Some(Consonant { place: ConsonantPlace::LabioDental, manner: ConsonantManner::Nasal, phonation: Phonation::Voiced }),
        'n' => Some(Consonant { place: ConsonantPlace::Alveolar, manner: ConsonantManner::Nasal, phonation: Phonation::Voiced }),
        '\u{273}' => Some(Consonant { place: ConsonantPlace::Retroflex, manner: ConsonantManner::Nasal, phonation: Phonation::Voiced }),
        '\u{272}' => Some(Consonant { place: ConsonantPlace::Palatal, manner: ConsonantManner::Nasal, phonation: Phonation::Voiced }),
        '\u{14B}' => Some(Consonant { place: ConsonantPlace::Velar, manner: ConsonantManner::Nasal, phonation: Phonation::Voiced }),
        '\u{274}' => Some(Consonant { place: ConsonantPlace::Uvular, manner: ConsonantManner::Nasal, phonation: Phonation::Voiced }),
        '\u{299}' => Some(Consonant { place: ConsonantPlace::Bilabial, manner: ConsonantManner::Trill, phonation: Phonation::Voiced }),
        'r' => Some(Consonant { place: ConsonantPlace::Alveolar, manner: ConsonantManner::Trill, phonation: Phonation::Voiced }),
        '\u{280}' => Some(Consonant { place: ConsonantPlace::Uvular, manner: ConsonantManner::Trill, phonation: Phonation::Voiced }),
        '\u{2C71}' => Some(Consonant { place: ConsonantPlace::LabioDental, manner: ConsonantManner::Tap, phonation: Phonation::Voiced }),
        '\u{27E}' => Some(Consonant { place: ConsonantPlace::Alveolar, manner: ConsonantManner::Tap, phonation: Phonation::Voiced }),
        '\u{27D}' => Some(Consonant { place: ConsonantPlace::Retroflex, manner: ConsonantManner::Tap, phonation: Phonation::Voiced }),
        '\u{278}' => Some(Consonant { place: ConsonantPlace::Bilabial, manner: ConsonantManner::Fricative, phonation: Phonation::Voiceless }),
        '\u{3B2}' => Some(Consonant { place: ConsonantPlace::Bilabial, manner: ConsonantManner::Fricative, phonation: Phonation::Voiced }),
        'f' => Some(Consonant { place: ConsonantPlace::LabioDental, manner: ConsonantManner::Fricative, phonation: Phonation::Voiceless }),
        'v' => Some(Consonant { place: ConsonantPlace::LabioDental, manner: ConsonantManner::Fricative, phonation: Phonation::Voiced }),
        '\u{3B8}' => Some(Consonant { place: ConsonantPlace::Dental, manner: ConsonantManner::Fricative, phonation: Phonation::Voiceless }),
        '\u{F0}' => Some(Consonant { place: ConsonantPlace::Dental, manner: ConsonantManner::Fricative, phonation: Phonation::Voiced }),
        's' => Some(Consonant { place: ConsonantPlace::Alveolar, manner: ConsonantManner::SibilantFricative, phonation: Phonation::Voiceless }),
        'z' => Some(Consonant { place: ConsonantPlace::Alveolar, manner: ConsonantManner::SibilantFricative, phonation: Phonation::Voiced }),
        '\u{283}' => Some(Consonant { place: ConsonantPlace::PostAlveolar, manner: ConsonantManner::SibilantFricative, phonation: Phonation::Voiceless }),
        '\u{292}' => Some(Consonant { place: ConsonantPlace::PostAlveolar, manner: ConsonantManner::SibilantFricative, phonation: Phonation::Voiced }),
        '\u{282}' => Some(Consonant { place: ConsonantPlace::Retroflex, manner: ConsonantManner::SibilantFricative, phonation: Phonation::Voiceless }),
        '\u{290}' => Some(Consonant { place: ConsonantPlace::Retroflex, manner: ConsonantManner::SibilantFricative, phonation: Phonation::Voiced }),
        '\u{255}' => Some(Consonant { place: ConsonantPlace::Palatal, manner: ConsonantManner::SibilantFricative, phonation: Phonation::Voiceless }),
        '\u{291}' => Some(Consonant { place: ConsonantPlace::Palatal, manner: ConsonantManner::SibilantFricative, phonation: Phonation::Voiced }),
        '\u{E7}' => Some(Consonant { place: ConsonantPlace::Palatal, manner: ConsonantManner::Fricative, phonation: Phonation::Voiceless }),
        '\u{29D}' => Some(Consonant { place: ConsonantPlace::Palatal, manner: ConsonantManner::Fricative, phonation: Phonation::Voiced }),
        'x' => Some(Consonant { place: ConsonantPlace::Velar, manner: ConsonantManner::Fricative, phonation: Phonation::Voiceless }),
        '\u{263}' => Some(Consonant { place: ConsonantPlace::Velar, manner: ConsonantManner::Fricative, phonation: Phonation::Voiced }),
        '\u{3C7}' => Some(Consonant { place: ConsonantPlace::Uvular, manner: ConsonantManner::Fricative, phonation: Phonation::Voiceless }),
        '\u{281}' => Some(Consonant { place: ConsonantPlace::Uvular, manner: ConsonantManner::Fricative, phonation: Phonation::Voiced }),
        '\u{127}' => Some(Consonant { place: ConsonantPlace::Pharyngeal, manner: ConsonantManner::Fricative, phonation: Phonation::Voiceless }),
        '\u{295}' => Some(Consonant { place: ConsonantPlace::Pharyngeal, manner: ConsonantManner::Fricative, phonation: Phonation::Voiced }),
        'h' => Some(Consonant { place: ConsonantPlace::Glottal, manner: ConsonantManner::Fricative, phonation: Phonation::Voiceless }),
        '\u{266}' => Some(Consonant { place: ConsonantPlace::Glottal, manner: ConsonantManner::Fricative, phonation: Phonation::Voiced }),
        '\u{26C}' => Some(Consonant { place: ConsonantPlace::Alveolar, manner: ConsonantManner::LateralFricative, phonation: Phonation::Voiceless }),
        '\u{26E}' => Some(Consonant { place: ConsonantPlace::Alveolar, manner: ConsonantManner::LateralFricative, phonation: Phonation::Voiced }),
        '\u{28B}' => Some(Consonant { place: ConsonantPlace::LabioDental, manner: ConsonantManner::Approximant, phonation: Phonation::Voiced }),
        '\u{279}' => Some(Consonant { place: ConsonantPlace::Alveolar, manner: ConsonantManner::Approximant, phonation: Phonation::Voiced }),
        '\u{27B}' => Some(Consonant { place: ConsonantPlace::Retroflex, manner: ConsonantManner::Approximant, phonation: Phonation::Voiced }),
        'j' => Some(Consonant { place: ConsonantPlace::Palatal, manner: ConsonantManner::Approximant, phonation: Phonation::Voiced }),
        'w' => Some(Consonant { place: ConsonantPlace::LabioVelar, manner: ConsonantManner::Approximant, phonation: Phonation::Voiced }),
        '\u{270}' => Some(Consonant { place: ConsonantPlace::Velar, manner: ConsonantManner::Approximant, phonation: Phonation::Voiced }),
        'l' => Some(Consonant { place: ConsonantPlace::Alveolar, manner: ConsonantManner::LateralApproximant, phonation: Phonation::Voiced }),
        '\u{26D}' => Some(Consonant { place: ConsonantPlace::Retroflex, manner: ConsonantManner::LateralApproximant, phonation: Phonation::Voiced }),
        '\u{28E}' => Some(Consonant { place: ConsonantPlace::Palatal, manner: ConsonantManner::LateralApproximant, phonation: Phonation::Voiced }),
        '\u{29F}' => Some(Consonant { place: ConsonantPlace::Palatal, manner: ConsonantManner::LateralApproximant, phonation: Phonation::Voiceless }),
        '\u{27A}' => Some(Consonant { place: ConsonantPlace::Alveolar, manner: ConsonantManner::LateralTap, phonation: Phonation::Voiced }),
        _ => None,
    }
}

/// The vowel that the character `c` stands for, if it stands for one.
pub open spec fn vowel_of_ipa(c: char) -> Option<Vowel> {
    match c {
        'i' => Some(Vowel { height: Height::Close, backness: Backness::Front, roundness: Roundness::UnRounded }),
        'y' => Some(Vowel { height: Height::Close, backness: Backness::Front, roundness: Roundness::Rounded }),
        '\u{268}' => Some(Vowel { height: Height::Close, backness: Backness::Central, roundness: Roundness::UnRounded }),
        '\u{289}' => Some(Vowel { height: Height::Close, backness: Backness::Central, roundness: Roundness::Rounded }),
        '\u{26F}' => Some(Vowel { height: Height::Close, backness: Backness::Back, roundness: Roundness::UnRounded }),
        'u' => Some(Vowel { height: Height::Close, backness: Backness::Back, roundness: Roundness::Rounded }),
        '\u{26A}' => Some(Vowel { height: Height::NearClose, backness: Backness::Front, roundness: Roundness::UnRounded }),
        '\u{28F}' => Some(Vowel { height: Height::NearClose, backness: Backness::Front, roundness: Roundness::Rounded }),
        '\u{28A}' => Some(Vowel { height: Height::NearClose, backness: Backness::Back, roundness: Roundness::Rounded }),
        'e' => Some(Vowel { height: Height::CloseMid, backness: Backness::Front, roundness: Roundness::UnRounded }),
        '\u{F8}' => Some(Vowel { height: Height::CloseMid, backness: Backness::Front, roundness: Roundness::Rounded }),
        '\u{258}' => Some(Vowel { height: Height::CloseMid, backness: Backness::Central, roundness: Roundness::UnRounded }),
        '\u{275}' => Some(Vowel { height: Height::CloseMid, backness: Backness::Central, roundness: Roundness::Rounded }),
        '\u{264}' => Some(Vowel { height: Height::CloseMid, backness: Backness::Back, roundness: Roundness::UnRounded }),
        'o' => Some(Vowel { height: Height::CloseMid, backness: Backness::Back, roundness: Roundness::Rounded }),
        '\u{259}' => Some(Vowel { height: Height::Mid, backness: Backness::Central, roundness: Roundness::Undefined }),
        '\u{25B}' => Some(Vowel { height: Height::OpenMid, backness: Backness::Front, roundness: Roundness::UnRounded }),
        '\u{153}' => Some(Vowel { height: Height::OpenMid, backness: Backness::Front, roundness: Roundness::Rounded }),
        '\u{25C}' => Some(Vowel { height: Height::OpenMid, backness: Backness::Central, roundness: Roundness::UnRounded }),
        '\u{25E}' => Some(Vowel { height: Height::OpenMid, backness: Backness::Central, roundness: Roundness::Rounded }),
        '\u{28C}' => Some(Vowel { height: Height::OpenMid, backness: Backness::Back, roundness: Roundness::UnRounded }),
        '\u{254}' => Some(Vowel { height: Height::OpenMid, backness: Backness::Back, roundness: Roundness::Rounded }),
        '\u{E6}' => Some(Vowel { height: Height::NearOpen, backness: Backness::Front, roundness: Roundness::UnRounded }),
        '\u{250}' => Some(Vowel { height: Height::NearOpen, backness: Backness::Central, roundness: Roundness::Undefined }),
        'a' => Some(Vowel { height: Height::Open, backness: Backness::Front, roundness: Roundness::UnRounded }),
        '\u{276}' => Some(Vowel { height: Height::Open, backness: Backness::Front, roundness: Roundness::Rounded }),
        '\u{251}' => Some(Vowel { height: Height::Open, backness: Backness::Back, roundness: Roundness::UnRounded }),
        '\u{252}' => Some(Vowel { height: Height::Open, backness: Backness::Back, roundness: Roundness::Rounded }),
        '\u{25A}' => Some(Vowel { height: Height::Mid, backness: Backness::Central, roundness: Roundness::Undefined }),
        _ => None,
    }
}

/// The diacritic that the character `c` stands for, if it stands for one.
pub open spec fn diacritic_of_ipa(c: char) -> Option<PhoneProperty> {
    match c {
        '\u{2B0}' => Some(PhoneProperty::ConsonantRelease(ConsonantRelease::Aspirated)),
        '\u{31A}' => Some(PhoneProperty::ConsonantRelease(ConsonantRelease::NoAudible)),
        '\u{207F}' => Some(PhoneProperty::ConsonantRelease(ConsonantRelease::Nasal)),
        '\u{2E1}' => Some(PhoneProperty::ConsonantRelease(ConsonantRelease::Lateral)),
        '\u{1DBF}' => Some(PhoneProperty::ConsonantRelease(ConsonantRelease::Dental)),
        '\u{2E3}' => Some(PhoneProperty::ConsonantRelease(ConsonantRelease::Velar)),
        '\u{1D4A}' => Some(PhoneProperty::ConsonantRelease(ConsonantRelease::MidCentralVowel)),
        '\u{325}' => Some(PhoneProperty::Phonation(Phonation::Voiceless)),
        '\u{30A}' => Some(PhoneProperty::Phonation(Phonation::Voiceless)),
        '\u{32C}' => Some(PhoneProperty::Phonation(Phonation::Voiced)),
        '\u{324}' => Some(PhoneProperty::Phonation(Phonation::BreathyVoiced)),
        '\u{2B1}' => Some(PhoneProperty::Phonation(Phonation::BreathyVoiced)),
        '\u{330}' => Some(PhoneProperty::Phonation(Phonation::CreakyVoiced)),
        '\u{32A}' => Some(PhoneProperty::Articulation(Articulation::Dental)),
        '\u{33C}' => Some(PhoneProperty::Articulation(Articulation::Linguolabial)),
        '\u{33A}' => Some(PhoneProperty::Articulation(Articulation::Apical)),
        '\u{33B}' => Some(PhoneProperty::Articulation(Articulation::Laminal)),
        '\u{2D6}' => Some(PhoneProperty::Articulation(Articulation::Advanced)),
        '\u{31F}' => Some(PhoneProperty::Articulation(Articulation::Advanced)),
        '\u{2D7}' => Some(PhoneProperty::Articulation(Articulation::Retracted)),
        '\u{320}' => Some(PhoneProperty::Articulation(Articulation::Retracted)),
        '\u{308}' => Some(PhoneProperty::Articulation(Articulation::Centralized)),
        '\u{33D}' => Some(PhoneProperty::Articulation(Articulation::MidCentralized)),
        '\u{2D4}' => Some(PhoneProperty::Articulation(Articulation::Raised)),
        '\u{31D}' => Some(PhoneProperty::Articulation(Articulation::Raised)),
        '\u{2D5}' => Some(PhoneProperty::Articulation(Articulation::Lowered)),
        '\u{31E}' => Some(PhoneProperty::Articulation(Articulation::Lowered)),
        '\u{339}' => Some(PhoneProperty::CoArticulation(CoArticulation::MoreRounded)),
        '\u{31C}' => Some(PhoneProperty::CoArticulation(CoArticulation::LessRounded)),
        '\u{2B7}' => Some(PhoneProperty::CoArticulation(CoArticulation::Labialized)),
        '\u{2B2}' => Some(PhoneProperty::CoArticulation(CoArticulation::Palatalized)),
        '\u{2E4}' => Some(PhoneProperty::CoArticulation(CoArticulation::Pharyngealized)),
        '\u{2E0}' => Some(PhoneProperty::CoArticulation(CoArticulation::Velarized)),
        '\u{334}' => Some(PhoneProperty::CoArticulation(CoArticulation::VelarizedOrPharyngealized)),
        '\u{318}' => Some(PhoneProperty::CoArticulation(CoArticulation::AdvancedTongueRoot)),
        '\u{319}' => Some(PhoneProperty::CoArticulation(CoArticulation::RetractedTongueRoot)),
        '\u{303}' => Some(PhoneProperty::CoArticulation(CoArticulation::Nasalized)),
        '\u{2DE}' => Some(PhoneProperty::CoArticulation(CoArticulation::Rhoticity)),
        '\u{2C8}' => Some(PhoneProperty::Rhythm(Rhythm::PrimaryStress)),
        '\u{2CC}' => Some(PhoneProperty::Rhythm(Rhythm::SecondaryStress)),
        '\u{2D0}' => Some(PhoneProperty::Rhythm(Rhythm::Long)),
        '\u{2D1}' => Some(PhoneProperty::Rhythm(Rhythm::HalfLong)),
        '\u{306}' => Some(PhoneProperty::Rhythm(Rhythm::ExtraShort)),
        '\u{30B}' => Some(PhoneProperty::Tone(Tone::Top)),
        '\u{2E5}' => Some(PhoneProperty::Tone(Tone::Top)),
        '\u{2E6}' => Some(PhoneProperty::Tone(Tone::High)),
        '\u{301}' => Some(PhoneProperty::Tone(Tone::High)),
        '\u{304}' => Some(PhoneProperty::Tone(Tone::Mid)),
        '\u{2E7}' => Some(PhoneProperty::Tone(Tone::Mid)),
        '\u{300}' => Some(PhoneProperty::Tone(Tone::Low)),
        '\u{2E8}' => Some(PhoneProperty::Tone(Tone::Low)),
        '\u{30F}' => Some(PhoneProperty::Tone(Tone::Bottom)),
        '\u{2E9}' => Some(PhoneProperty::Tone(Tone::Bottom)),
        '\u{30C}' => Some(PhoneProperty::Tone(Tone::Rising)),
        '\u{302}' => Some(PhoneProperty::Tone(Tone::Falling)),
        '\u{A71B}' => Some(PhoneProperty::Tone(Tone::Upstep)),
        '\u{A71C}' => Some(PhoneProperty::Tone(Tone::Downstep)),
        '|' => Some(PhoneProperty::Intonation(Intonation::MinorBreak)),
        '\u{2016}' => Some(PhoneProperty::Intonation(Intonation::MajorBreak)),
        '\u{2197}' => Some(PhoneProperty::Intonation(Intonation::GlobalRise)),
        '\u{2198}' => Some(PhoneProperty::Intonation(Intonation::GlobalFall)),
        _ => None,
    }
}

/// The phone that the character `c` stands for, if it stands for one.
pub open spec fn phone_of_ipa(c: char) -> Option<Phone> {
    if consonant_of_ipa(c) is Some {
        Some(Phone::Consonant(consonant_of_ipa(c)->0))
    } else if vowel_of_ipa(c) is Some {
        Some(Phone::Vowel(vowel_of_ipa(c)->0))
    } else if diacritic_of_ipa(c) is Some {
        Some(Phone::Diacritic(diacritic_of_ipa(c)->0))
    } else {
        None
    }
}

/// The preferred character of a consonant, if the alphabet has one for it.
pub open spec fn ipa_of_consonant(consonant: Consonant) -> Option<char> {
    match consonant {
        Consonant { place: ConsonantPlace::Bilabial, manner: ConsonantManner::Stop, phonation: Phonation::Voiceless } => Some('p'),
        Consonant { place: ConsonantPlace::Bilabial, manner: ConsonantManner::Stop, phonation: Phonation::Voiced } => Some('b'),
        Consonant { place: ConsonantPlace::Alveolar, manner: ConsonantManner::Stop, phonation: Phonation::Voiceless } => Some('t'),
        Consonant { place: ConsonantPlace::Alveolar, manner: ConsonantManner::Stop, phonation: Phonation::Voiced } => Some('d'),
        Consonant { place: ConsonantPlace::Retroflex, manner: ConsonantManner::Stop, phonation: Phonation::Voiceless } => Some('\u{288}'),
        Consonant { place: ConsonantPlace::Retroflex, manner: ConsonantManner::Stop, phonation: Phonation::Voiced } => Some('\u{256}'),
        Consonant { place: ConsonantPlace::Palatal, manner: ConsonantManner::Stop, phonation: Phonation::Voiceless } => Some('c'),
        Consonant { place: ConsonantPlace::Palatal, manner: ConsonantManner::Stop, phonation: Phonation::Voiced } => Some('\u{25F}'),
        Consonant { place: ConsonantPlace::Velar, manner: ConsonantManner::Stop, phonation: Phonation::Voiceless } => Some('k'),
        Consonant { place: ConsonantPlace::Velar, manner: ConsonantManner::Stop, phonation: Phonation::Voiced } => Some('g'),
        Consonant { place: ConsonantPlace::Uvular, manner: ConsonantManner::Stop, phonation: Phonation::Voiceless } => Some('q'),
        Consonant { place: ConsonantPlace::Uvular, manner: ConsonantManner::Stop, phonation: Phonation::Voiced } => Some('\u{262}'),
        Consonant { place: ConsonantPlace::Pharyngeal, manner: ConsonantManner::Stop, phonation: Phonation::Voiceless } => Some('\u{2A1}'),
        Consonant { place: ConsonantPlace::Glottal, manner: ConsonantManner::Stop, phonation: Phonation::Voiceless } => Some('\u{294}'),
        Consonant { place: ConsonantPlace::Bilabial, manner: ConsonantManner::Nasal, phonation: Phonation::Voiced } => Some('m'),
        Consonant { place: ConsonantPlace::LabioDental, manner: ConsonantManner::Nasal, phonation: Phonation::Voiced } => Some('\u{271}'),
        Consonant { place: ConsonantPlace::Alveolar, manner: ConsonantManner::Nasal, phonation: Phonation::Voiced } => Some('n'),
        Consonant { place: ConsonantPlace::Retroflex, manner: ConsonantManner::Nasal, phonation: Phonation::Voiced } => Some('\u{273}'),
        Consonant { place: ConsonantPlace::Palatal, manner: ConsonantManner::Nasal, phonation: Phonation::Voiced } => Some('\u{272}'),
        Consonant { place: ConsonantPlace::Velar, manner: ConsonantManner::Nasal, phonation: Phonation::Voiced } => Some('\u{14B}'),
        Consonant { place: ConsonantPlace::Uvular, manner: ConsonantManner::Nasal, phonation: Phonation::Voiced } => Some('\u{274}'),
        Consonant { place: ConsonantPlace::Bilabial, manner: ConsonantManner::Trill, phonation: Phonation::Voiced } => Some('\u{299}'),
        Consonant { place: ConsonantPlace::Alveolar, manner: ConsonantManner::Trill, phonation: Phonation::Voiced } => Some('r'),
        Consonant { place: ConsonantPlace::Uvular, manner: ConsonantManner::Trill, phonation: Phonation::Voiced } => Some('\u{280}'),
        Consonant { place: ConsonantPlace::LabioDental, manner: ConsonantManner::Tap, phonation: Phonation::Voiced } => Some('\u{2C71}'),
        Consonant { place: ConsonantPlace::Alveolar, manner: ConsonantManner::Tap, phonation: Phonation::Voiced } => Some('\u{27E}'),
        Consonant { place: ConsonantPlace::Retroflex, manner: ConsonantManner::Tap, phonation: Phonation::Voiced } => Some('\u{27D}'),
        Consonant { place: ConsonantPlace::Bilabial, manner: ConsonantManner::Fricative, phonation: Phonation::Voiceless } => Some('\u{278}'),
        Consonant { place: ConsonantPlace::Bilabial, manner: ConsonantManner::Fricative, phonation: Phonation::Voiced } => Some('\u{3B2}'),
        Consonant { place: ConsonantPlace::LabioDental, manner: ConsonantManner::Fricative, phonation: Phonation::Voiceless } => Some('f'),
        Consonant { place: ConsonantPlace::LabioDental, manner: ConsonantManner::Fricative, phonation: Phonation::Voiced } => Some('v'),
        Consonant { place: ConsonantPlace::Dental, manner: ConsonantManner::Fricative, phonation: Phonation::Voiceless } => Some('\u{3B8}'),
        Consonant { place: ConsonantPlace::Dental, manner: ConsonantManner::Fricative, phonation: Phonation::Voiced } => Some('\u{F0}'),
        Consonant { place: ConsonantPlace::Alveolar, manner: ConsonantManner::SibilantFricative, phonation: Phonation::Voiceless } => Some('s'),
        Consonant { place: ConsonantPlace::Alveolar, manner: ConsonantManner::SibilantFricative, phonation: Phonation::Voiced } => Some('z'),
        Consonant { place: ConsonantPlace::PostAlveolar, manner: ConsonantManner::SibilantFricative, phonation: Phonation::Voiceless } => Some('\u{283}'),
        Consonant { place: ConsonantPlace::PostAlveolar, manner: ConsonantManner::SibilantFricative, phonation: Phonation::Voiced } => Some('\u{292}'),
        Consonant { place: ConsonantPlace::Retroflex, manner: ConsonantManner::SibilantFricative, phonation: Phonation::Voiceless } => Some('\u{282}'),
        Consonant { place: ConsonantPlace::Retroflex, manner: ConsonantManner::SibilantFricative, phonation: Phonation::Voiced } => Some('\u{290}'),
        Consonant { place: ConsonantPlace::Palatal, manner: ConsonantManner::SibilantFricative, phonation: Phonation::Voiceless } => Some('\u{255}'),
        Consonant { place: ConsonantPlace::Palatal, manner: ConsonantManner::SibilantFricative, phonation: Phonation::Voiced } => Some('\u{291}'),
        Consonant { place: ConsonantPlace::Palatal, manner: ConsonantManner::Fricative, phonation: Phonation::Voiceless } => Some('\u{E7}'),
        Consonant { place: ConsonantPlace::Palatal, manner: ConsonantManner::Fricative, phonation: Phonation::Voiced } => Some('\u{29D}'),
        Consonant { place: ConsonantPlace::Velar, manner: ConsonantManner::Fricative, phonation: Phonation::Voiceless } => Some('x'),
        Consonant { place: ConsonantPlace::Velar, manner: ConsonantManner::Fricative, phonation: Phonation::Voiced } => Some('\u{263}'),
        Consonant { place: ConsonantPlace::Uvular, manner: ConsonantManner::Fricative, phonation: Phonation::Voiceless } => Some('\u{3C7}'),
        Consonant { place: ConsonantPlace::Uvular, manner: ConsonantManner::Fricative, phonation: Phonation::Voiced } => Some('\u{281}'),
        Consonant { place: ConsonantPlace::Pharyngeal, manner: ConsonantManner::Fricative, phonation: Phonation::Voiceless } => Some('\u{127}'),
        Consonant { place: ConsonantPlace::Pharyngeal, manner: ConsonantManner::Fricative, phonation: Phonation::Voiced } => Some('\u{295}'),
        Consonant { place: ConsonantPlace::Glottal, manner: ConsonantManner::Fricative, phonation: Phonation::Voiceless } => Some('h'),
        Consonant { place: ConsonantPlace::Glottal, manner: ConsonantManner::Fricative, phonation: Phonation::Voiced } => Some('\u{266}'),
        Consonant { place: ConsonantPlace::Alveolar, manner: ConsonantManner::LateralFricative, phonation: Phonation::Voiceless } => Some('\u{26C}'),
        Consonant { place: ConsonantPlace::Alveolar, manner: ConsonantManner::LateralFricative, phonation: Phonation::Voiced } => Some('\u{26E}'),
        Consonant { place: ConsonantPlace::LabioDental, manner: ConsonantManner::Approximant, phonation: Phonation::Voiced } => Some('\u{28B}'),
        Consonant { place: ConsonantPlace::Alveolar, manner: ConsonantManner::Approximant, phonation: Phonation::Voiced } => Some('\u{279}'),
        Consonant { place: ConsonantPlace::Retroflex, manner: ConsonantManner::Approximant, phonation: Phonation::Voiced } => Some('\u{27B}'),
        Consonant { place: ConsonantPlace::Palatal, manner: ConsonantManner::Approximant, phonation: Phonation::Voiced } => Some('j'),
        Consonant { place: ConsonantPlace::LabioVelar, manner: ConsonantManner::Approximant, phonation: Phonation::Voiced } => Some('w'),
        Consonant { place: ConsonantPlace::Velar, manner: ConsonantManner::Approximant, phonation: Phonation::Voiced } => Some('\u{270}'),
        Consonant { place: ConsonantPlace::Alveolar, manner: ConsonantManner::LateralApproximant, phonation: Phonation::Voiced } => Some('l'),
        Consonant { place: ConsonantPlace::Retroflex, manner: ConsonantManner::LateralApproximant, phonation: Phonation::Voiced } => Some('\u{26D}'),
        Consonant { place: ConsonantPlace::Palatal, manner: ConsonantManner::LateralApproximant, phonation: Phonation::Voiced } => Some('\u{28E}'),
        Consonant { place: ConsonantPlace::Palatal, manner: ConsonantManner::LateralApproximant, phonation: Phonation::Voiceless } => Some('\u{29F}'),
        Consonant { place: ConsonantPlace::Alveolar, manner: ConsonantManner::LateralTap, phonation: Phonation::Voiced } => Some('\u{27A}'),
        _ => None,
    }
}

/// The preferred character of a vowel, if the alphabet has one for it.
pub open spec fn ipa_of_vowel(vowel: Vowel) -> Option<char> {
    match vowel {
        Vowel { height: Height::Close, backness: Backness::Front, roundness: Roundness::UnRounded } => Some('i'),
        Vowel { height: Height::Close, backness: Backness::Front, roundness: Roundness::Rounded } => Some('y'),
        Vowel { height: Height::Close, backness: Backness::Central, roundness: Roundness::UnRounded } => Some('\u{268}'),
        Vowel { height: Height::Close, backness: Backness::Central, roundness: Roundness::Rounded } => Some('\u{289}'),
        Vowel { height: Height::Close, backness: Backness::Back, roundness: Roundness::UnRounded } => Some('\u{26F}'),
        Vowel { height: Height::Close, backness: Backness::Back, roundness: Roundness::Rounded } => Some('u'),
        Vowel { height: Height::NearClose, backness: Backness::Front, roundness: Roundness::UnRounded } => Some('\u{26A}'),
        Vowel { height: Height::NearClose, backness: Backness::Front, roundness: Roundness::Rounded } => Some('\u{28F}'),
        Vowel { height: Height::NearClose, backness: Backness::Back, roundness: Roundness::Rounded } => Some('\u{28A}'),
        Vowel { height: Height::CloseMid, backness: Backness::Front, roundness: Roundness::UnRounded } => Some('e'),
        Vowel { height: Height::CloseMid, backness: Backness::Front, roundness: Roundness::Rounded } => Some('\u{F8}'),
        Vowel { height: Height::CloseMid, backness: Backness::Central, roundness: Roundness::UnRounded } => Some('\u{258}'),
        Vowel { height: Height::CloseMid, backness: Backness::Central, roundness: Roundness::Rounded } => Some('\u{275}'),
        Vowel { height: Height::CloseMid, backness: Backness::Back, roundness: Roundness::UnRounded } => Some('\u{264}'),
        Vowel { height: Height::CloseMid, backness: Backness::Back, roundness: Roundness::Rounded } => Some('o'),
        Vowel { height: Height::Mid, backness: Backness::Central, roundness: Roundness::Undefined } => Some('\u{259}'),
        Vowel { height: Height::OpenMid, backness: Backness::Front, roundness: Roundness::UnRounded } => Some('\u{25B}'),
        Vowel { height: Height::OpenMid, backness: Backness::Front, roundness: Roundness::Rounded } => Some('\u{153}'),
        Vowel { height: Height::OpenMid, backness: Backness::Central, roundness: Roundness::UnRounded } => Some('\u{25C}'),
        Vowel { height: Height::OpenMid, backness: Backness::Central, roundness: Roundness::Rounded } => Some('\u{25E}'),
        Vowel { height: Height::OpenMid, backness: Backness::Back, roundness: Roundness::UnRounded } => Some('\u{28C}'),
        Vowel { height: Height::OpenMid, backness: Backness::Back, roundness: Roundness::Rounded } => Some('\u{254}'),
        Vowel { height: Height::NearOpen, backness: Backness::Front, roundness: Roundness::UnRounded } => Some('\u{E6}'),
        Vowel { height: Height::NearOpen, backness: Backness::Central, roundness: Roundness::Undefined } => Some('\u{250}'),
        Vowel { height: Height::Open, backness: Backness::Front, roundness: Roundness::UnRounded } => Some('a'),
        Vowel { height: Height::Open, backness: Backness::Front, roundness: Roundness::Rounded } => Some('\u{276}'),
        Vowel { height: Height::Open, backness: Backness::Back, roundness: Roundness::UnRounded } => Some('\u{251}'),
        Vowel { height: Height::Open, backness: Backness::Back, roundness: Roundness::Rounded } => Some('\u{252}'),
        _ => None,
    }
}

/// The preferred character of a diacritic, if the alphabet has one for it.
pub open spec fn ipa_of_diacritic(property: PhoneProperty) -> Option<char> {
    match property {
        PhoneProperty::ConsonantRelease(ConsonantRelease::Aspirated) => Some('\u{2B0}'),
        PhoneProperty::ConsonantRelease(ConsonantRelease::NoAudible) => Some('\u{31A}'),
        PhoneProperty::ConsonantRelease(ConsonantRelease::Nasal) => Some('\u{207F}'),
        PhoneProperty::ConsonantRelease(ConsonantRelease::Lateral) => Some('\u{2E1}'),
        PhoneProperty::ConsonantRelease(ConsonantRelease::Dental) => Some('\u{1DBF}'),
        PhoneProperty::ConsonantRelease(ConsonantRelease::Velar) => Some('\u{2E3}'),
        PhoneProperty::ConsonantRelease(ConsonantRelease::MidCentralVowel) => Some('\u{1D4A}'),
        PhoneProperty::Phonation(Phonation::Voiceless) => Some('\u{325}'),
        PhoneProperty::Phonation(Phonation::Voiced) => Some('\u{32C}'),
        PhoneProperty::Phonation(Phonation::BreathyVoiced) => Some('\u{2B1}'),
        PhoneProperty::Phonation(Phonation::CreakyVoiced) => Some('\u{330}'),
        PhoneProperty::Articulation(Articulation::Dental) => Some('\u{32A}'),
        PhoneProperty::Articulation(Articulation::Linguolabial) => Some('\u{33C}'),
        PhoneProperty::Articulation(Articulation::Apical) => Some('\u{33A}'),
        PhoneProperty::Articulation(Articulation::Laminal) => Some('\u{33B}'),
        PhoneProperty::Articulation(Articulation::Advanced) => Some('\u{31F}'),
        PhoneProperty::Articulation(Articulation::Retracted) => Some('\u{320}'),
        PhoneProperty::Articulation(Articulation::Centralized) => Some('\u{308}'),
        PhoneProperty::Articulation(Articulation::MidCentralized) => Some('\u{33D}'),
        PhoneProperty::Articulation(Articulation::Raised) => Some('\u{31D}'),
        PhoneProperty::Articulation(Articulation::Lowered) => Some('\u{31E}'),
        PhoneProperty::CoArticulation(CoArticulation::MoreRounded) => Some('\u{339}'),
        PhoneProperty::CoArticulation(CoArticulation::LessRounded) => Some('\u{31C}'),
        PhoneProperty::CoArticulation(CoArticulation::Labialized) => Some('\u{2B7}'),
        PhoneProperty::CoArticulation(CoArticulation::Palatalized) => Some('\u{2B2}'),
        PhoneProperty::CoArticulation(CoArticulation::Pharyngealized) => Some('\u{2E4}'),
        PhoneProperty::CoArticulation(CoArticulation::Velarized) => Some('\u{2E0}'),
        PhoneProperty::CoArticulation(CoArticulation::VelarizedOrPharyngealized) => Some('\u{334}'),
        PhoneProperty::CoArticulation(CoArticulation::AdvancedTongueRoot) => Some('\u{318}'),
        PhoneProperty::CoArticulation(CoArticulation::RetractedTongueRoot) => Some('\u{319}'),
        PhoneProperty::CoArticulation(CoArticulation::Nasalized) => Some('\u{303}'),
        PhoneProperty::CoArticulation(CoArticulation::Rhoticity) => Some('\u{2DE}'),
        PhoneProperty::Rhythm(Rhythm::PrimaryStress) => Some('\u{2C8}'),
        PhoneProperty::Rhythm(Rhythm::SecondaryStress) => Some('\u{2CC}'),
        PhoneProperty::Rhythm(Rhythm::Long) => Some('\u{2D0}'),
        PhoneProperty::Rhythm(Rhythm::HalfLong) => Some('\u{2D1}'),
        PhoneProperty::Rhythm(Rhythm::ExtraShort) => Some('\u{306}'),
        PhoneProperty::Tone(Tone::Top) => Some('\u{30B}'),
        PhoneProperty::Tone(Tone::High) => Some('\u{301}'),
        PhoneProperty::Tone(Tone::Mid) => Some('\u{304}'),
        PhoneProperty::Tone(Tone::Low) => Some('\u{300}'),
        PhoneProperty::Tone(Tone::Bottom) => Some('\u{30F}'),
        PhoneProperty::Tone(Tone::Rising) => Some('\u{30C}'),
        PhoneProperty::Tone(Tone::Falling) => Some('\u{302}'),
        PhoneProperty::Tone(Tone::Upstep) => Some('\u{A71B}'),
        PhoneProperty::Tone(Tone::Downstep) => Some('\u{A71C}'),
        PhoneProperty::Intonation(Intonation::MinorBreak) => Some('|'),
        PhoneProperty::Intonation(Intonation::MajorBreak) => Some('\u{2016}'),
        PhoneProperty::Intonation(Intonation::GlobalRise) => Some('\u{2197}'),
        PhoneProperty::Intonation(Intonation::GlobalFall) => Some('\u{2198}'),
    }
}

/// The preferred character of a phone, if the alphabet has one for it.
pub open spec fn ipa_of_phone(phone: Phone) -> Option<char> {
    match phone {
        Phone::Consonant(consonant) => ipa_of_consonant(consonant),
        Phone::Vowel(vowel) => ipa_of_vowel(vowel),
        Phone::Diacritic(property) => ipa_of_diacritic(property),
    }
}

fn consonant_from_ipa(c: char) -> (found: Option<Consonant>)
    ensures
        found == consonant_of_ipa(c),
{
    match c {
        'p' => Some(Consonant { place: ConsonantPlace::Bilabial, manner: ConsonantManner::Stop, phonation: Phonation::Voiceless }),
        'b' => Some(Consonant { place: ConsonantPlace::Bilabial, manner: ConsonantManner::Stop, phonation: Phonation::Voiced }),
        't' => Some(Consonant { place: ConsonantPlace::Alveolar, manner: ConsonantManner::Stop, phonation: Phonation::Voiceless }),
        'd' => Some(Consonant { place: ConsonantPlace::Alveolar, manner: ConsonantManner::Stop, phonation: Phonation::Voiced }),
        '\u{288}' => Some(Consonant { place: ConsonantPlace::Retroflex, manner: ConsonantManner::Stop, phonation: Phonation::Voiceless }),
        '\u{256}' => Some(Consonant { place: ConsonantPlace::Retroflex, manner: ConsonantManner::Stop, phonation: Phonation::Voiced }),
        'c' => Some(Consonant { place: ConsonantPlace::Palatal, manner: ConsonantManner::Stop, phonation: Phonation::Voiceless }),
        '\u{25F}' => Some(Consonant { place: ConsonantPlace::Palatal, manner: ConsonantManner::Stop, phonation: Phonation::Voiced }),
        'k' => Some(Consonant { place: ConsonantPlace::Velar, manner: ConsonantManner::Stop, phonation: Phonation::Voiceless }),
        'g' => Some(Consonant { place: ConsonantPlace::Velar, manner: ConsonantManner::Stop, phonation: Phonation::Voiced }),
        'q' => Some(Consonant { place: ConsonantPlace::Uvular, manner: ConsonantManner::Stop, phonation: Phonation::Voiceless }),
        '\u{262}' => Some(Consonant { place: ConsonantPlace::Uvular, manner: ConsonantManner::Stop, phonation: Phonation::Voiced }),
        '\u{2A1}' => Some(Consonant { place: ConsonantPlace::Pharyngeal, manner: ConsonantManner::Stop, phonation: Phonation::Voiceless }),
        '\u{294}' => Some(Consonant { place: ConsonantPlace::Glottal, manner: ConsonantManner::Stop, phonation: Phonation::Voiceless }),
        'm' => Some(Consonant { place: ConsonantPlace::Bilabial, manner: ConsonantManner::Nasal, phonation: Phonation::Voiced }),
        '\u{271}' => Some(Consonant { place: ConsonantPlace::LabioDental, manner: ConsonantManner::Nasal, phonation: Phonation::Voiced }),
        'n' => Some(Consonant { place: ConsonantPlace::Alveolar, manner: ConsonantManner::Nasal, phonation: Phonation::Voiced }),
        '\u{273}' => Some(Consonant { place: ConsonantPlace::Retroflex, manner: ConsonantManner::Nasal, phonation: Phonation::Voiced }),
        '\u{272}' => Some(Consonant { place: ConsonantPlace::Palatal, manner: ConsonantManner::Nasal, phonation: Phonation::Voiced }),
        '\u{14B}' => Some(Consonant { place: ConsonantPlace::Velar, manner: ConsonantManner::Nasal, phonation: Phonation::Voiced }),
        '\u{274}' => Some(Consonant { place: ConsonantPlace::Uvular, manner: ConsonantManner::Nasal, phonation: Phonation::Voiced }),
        '\u{299}' => Some(Consonant { place: ConsonantPlace::Bilabial, manner: ConsonantManner::Trill, phonation: Phonation::Voiced }),
        'r' => Some(Consonant { place: ConsonantPlace::Alveolar, manner: ConsonantManner::Trill, phonation: Phonation::Voiced }),
        '\u{280}' => Some(Consonant { place: ConsonantPlace::Uvular, manner: ConsonantManner::Trill, phonation: Phonation::Voiced }),
        '\u{2C71}' => Some(Consonant { place: ConsonantPlace::LabioDental, manner: ConsonantManner::Tap, phonation: Phonation::Voiced }),
        '\u{27E}' => Some(Consonant { place: ConsonantPlace::Alveolar, manner: ConsonantManner::Tap, phonation: Phonation::Voiced }),
        '\u{27D}' => Some(Consonant { place: ConsonantPlace::Retroflex, manner: ConsonantManner::Tap, phonation: Phonation::Voiced }),
        '\u{278}' => Some(Consonant { place: ConsonantPlace::Bilabial, manner: ConsonantManner::Fricative, phonation: Phonation::Voiceless }),
        '\u{3B2}' => Some(Consonant { place: ConsonantPlace::Bilabial, manner: ConsonantManner::Fricative, phonation: Phonation::Voiced }),
        'f' => Some(Consonant { place: ConsonantPlace::LabioDental, manner: ConsonantManner::Fricative, phonation: Phonation::Voiceless }),
        'v' => Some(Consonant { place: ConsonantPlace::LabioDental, manner: ConsonantManner::Fricative, phonation: Phonation::Voiced }),
        '\u{3B8}' => Some(Consonant { place: ConsonantPlace::Dental, manner: ConsonantManner::Fricative, phonation: Phonation::Voiceless }),
        '\u{F0}' => Some(Consonant { place: ConsonantPlace::Dental, manner: ConsonantManner::Fricative, phonation: Phonation::Voiced }),
        's' => Some(Consonant { place: ConsonantPlace::Alveolar, manner: ConsonantManner::SibilantFricative, phonation: Phonation::Voiceless }),
        'z' => Some(Consonant { place: ConsonantPlace::Alveolar, manner: ConsonantManner::SibilantFricative, phonation: Phonation::Voiced }),
        '\u{283}' => Some(Consonant { place: ConsonantPlace::PostAlveolar, manner: ConsonantManner::SibilantFricative, phonation: Phonation::Voiceless }),
        '\u{292}' => Some(Consonant { place: ConsonantPlace::PostAlveolar, manner: ConsonantManner::SibilantFricative, phonation: Phonation::Voiced }),
        '\u{282}' => Some(Consonant { place: ConsonantPlace::Retroflex, manner: ConsonantManner::SibilantFricative, phonation: Phonation::Voiceless }),
        '\u{290}' => Some(Consonant { place: ConsonantPlace::Retroflex, manner: ConsonantManner::SibilantFricative, phonation: Phonation::Voiced }),
        '\u{255}' => Some(Consonant { place: ConsonantPlace::Palatal, manner: ConsonantManner::SibilantFricative, phonation: Phonation::Voiceless }),
        '\u{291}' => Some(Consonant { place: ConsonantPlace::Palatal, manner: ConsonantManner::SibilantFricative, phonation: Phonation::Voiced }),
        '\u{E7}' => Some(Consonant { place: ConsonantPlace::Palatal, manner: ConsonantManner::Fricative, phonation: Phonation::Voiceless }),
        '\u{29D}' => Some(Consonant { place: ConsonantPlace::Palatal, manner: ConsonantManner::Fricative, phonation: Phonation::Voiced }),
        'x' => Some(Consonant { place: ConsonantPlace::Velar, manner: ConsonantManner::Fricative, phonation: Phonation::Voiceless }),
        '\u{263}' => Some(Consonant { place: ConsonantPlace::Velar, manner: ConsonantManner::Fricative, phonation: Phonation::Voiced }),
        '\u{3C7}' => Some(Consonant { place: ConsonantPlace::Uvular, manner: ConsonantManner::Fricative, phonation: Phonation::Voiceless }),
        '\u{281}' => Some(Consonant { place: ConsonantPlace::Uvular, manner: ConsonantManner::Fricative, phonation: Phonation::Voiced }),
        '\u{127}' => Some(Consonant { place: ConsonantPlace::Pharyngeal, manner: ConsonantManner::Fricative, phonation: Phonation::Voiceless }),
        '\u{295}' => Some(Consonant { place: ConsonantPlace::Pharyngeal, manner: ConsonantManner::Fricative, phonation: Phonation::Voiced }),
        'h' => Some(Consonant { place: ConsonantPlace::Glottal, manner: ConsonantManner::Fricative, phonation: Phonation::Voiceless }),
        '\u{266}' => Some(Consonant { place: ConsonantPlace::Glottal, manner: ConsonantManner::Fricative, phonation: Phonation::Voiced }),
        '\u{26C}' => Some(Consonant { place: ConsonantPlace::Alveolar, manner: ConsonantManner::LateralFricative, phonation: Phonation::Voiceless }),
        '\u{26E}' => Some(Consonant { place: ConsonantPlace::Alveolar, manner: ConsonantManner::LateralFricative, phonation: Phonation::Voiced }),
        '\u{28B}' => Some(Consonant { place: ConsonantPlace::LabioDental, manner: ConsonantManner::Approximant, phonation: Phonation::Voiced }),
        '\u{279}' => Some(Consonant { place: ConsonantPlace::Alveolar, manner: ConsonantManner::Approximant, phonation: Phonation::Voiced }),
        '\u{27B}' => Some(Consonant { place: ConsonantPlace::Retroflex, manner: ConsonantManner::Approximant, phonation: Phonation::Voiced }),
        'j' => Some(Consonant { place: ConsonantPlace::Palatal, manner: ConsonantManner::Approximant, phonation: Phonation::Voiced }),
        'w' => Some(Consonant { place: ConsonantPlace::LabioVelar, manner: ConsonantManner::Approximant, phonation: Phonation::Voiced }),
        '\u{270}' => Some(Consonant { place: ConsonantPlace::Velar, manner: ConsonantManner::Approximant, phonation: Phonation::Voiced }),
        'l' => Some(Consonant { place: ConsonantPlace::Alveolar, manner: ConsonantManner::LateralApproximant, phonation: Phonation::Voiced }),
        '\u{26D}' => Some(Consonant { place: ConsonantPlace::Retroflex, manner: ConsonantManner::LateralApproximant, phonation: Phonation::Voiced }),
        '\u{28E}' => Some(Consonant { place: ConsonantPlace::Palatal, manner: ConsonantManner::LateralApproximant, phonation: Phonation::Voiced }),
        '\u{29F}' => Some(Consonant { place: ConsonantPlace::Palatal, manner: ConsonantManner::LateralApproximant, phonation: Phonation::Voiceless }),
        '\u{27A}' => Some(Consonant { place: ConsonantPlace::Alveolar, manner: ConsonantManner::LateralTap, phonation: Phonation::Voiced }),
        _ => None,
    }
}

fn vowel_from_ipa(c: char) -> (found: Option<Vowel>)
    ensures
        found == vowel_of_ipa(c),
{
    match c {
        'i' => Some(Vowel { height: Height::Close, backness: Backness::Front, roundness: Roundness::UnRounded }),
        'y' => Some(Vowel { height: Height::Close, backness: Backness::Front, roundness: Roundness::Rounded }),
        '\u{268}' => Some(Vowel { height: Height::Close, backness: Backness::Central, roundness: Roundness::UnRounded }),
        '\u{289}' => Some(Vowel { height: Height::Close, backness: Backness::Central, roundness: Roundness::Rounded }),
        '\u{26F}' => Some(Vowel { height: Height::Close, backness: Backness::Back, roundness: Roundness::UnRounded }),
        'u' => Some(Vowel { height: Height::Close, backness: Backness::Back, roundness: Roundness::Rounded }),
        '\u{26A}' => Some(Vowel { height: Height::NearClose, backness: Backness::Front, roundness: Roundness::UnRounded }),
        '\u{28F}' => Some(Vowel { height: Height::NearClose, backness: Backness::Front, roundness: Roundness::Rounded }),
        '\u{28A}' => Some(Vowel { height: Height::NearClose, backness: Backness::Back, roundness: Roundness::Rounded }),
        'e' => Some(Vowel { height: Height::CloseMid, backness: Backness::Front, roundness: Roundness::UnRounded }),
        '\u{F8}' => Some(Vowel { height: Height::CloseMid, backness: Backness::Front, roundness: Roundness::Rounded }),
        '\u{258}' => Some(Vowel { height: Height::CloseMid, backness: Backness::Central, roundness: Roundness::UnRounded }),
        '\u{275}' => Some(Vowel { height: Height::CloseMid, backness: Backness::Central, roundness: Roundness::Rounded }),
        '\u{264}' => Some(Vowel { height: Height::CloseMid, backness: Backness::Back, roundness: Roundness::UnRounded }),
        'o' => Some(Vowel { height: Height::CloseMid, backness: Backness::Back, roundness: Roundness::Rounded }),
        '\u{259}' => Some(Vowel { height: Height::Mid, backness: Backness::Central, roundness: Roundness::Undefined }),
        '\u{25B}' => Some(Vowel { height: Height::OpenMid, backness: Backness::Front, roundness: Roundness::UnRounded }),
        '\u{153}' => Some(Vowel { height: Height::OpenMid, backness: Backness::Front, roundness: Roundness::Rounded }),
        '\u{25C}' => Some(Vowel { height: Height::OpenMid, backness: Backness::Central, roundness: Roundness::UnRounded }),
        '\u{25E}' => Some(Vowel { height: Height::OpenMid, backness: Backness::Central, roundness: Roundness::Rounded }),
        '\u{28C}' => Some(Vowel { height: Height::OpenMid, backness: Backness::Back, roundness: Roundness::UnRounded }),
        '\u{254}' => Some(Vowel { height: Height::OpenMid, backness: Backness::Back, roundness: Roundness::Rounded }),
        '\u{E6}' => Some(Vowel { height: Height::NearOpen, backness: Backness::Front, roundness: Roundness::UnRounded }),
        '\u{250}' => Some(Vowel { height: Height::NearOpen, backness: Backness::Central, roundness: Roundness::Undefined }),
        'a' => Some(Vowel { height: Height::Open, backness: Backness::Front, roundness: Roundness::UnRounded }),
        '\u{276}' => Some(Vowel { height: Height::Open, backness: Backness::Front, roundness: Roundness::Rounded }),
        '\u{251}' => Some(Vowel { height: Height::Open, backness: Backness::Back, roundness: Roundness::UnRounded }),
        '\u{252}' => Some(Vowel { height: Height::Open, backness: Backness::Back, roundness: Roundness::Rounded }),
        '\u{25A}' => Some(Vowel { height: Height::Mid, backness: Backness::Central, roundness: Roundness::Undefined }),
        _ => None,
    }
}

fn diacritic_from_ipa(c: char) -> (found: Option<PhoneProperty>)
    ensures
        found == diacritic_of_ipa(c),
{
    match c {
        '\u{2B0}' => Some(PhoneProperty::ConsonantRelease(ConsonantRelease::Aspirated)),
        '\u{31A}' => Some(PhoneProperty::ConsonantRelease(ConsonantRelease::NoAudible)),
        '\u{207F}' => Some(PhoneProperty::ConsonantRelease(ConsonantRelease::Nasal)),
        '\u{2E1}' => Some(PhoneProperty::ConsonantRelease(ConsonantRelease::Lateral)),
        '\u{1DBF}' => Some(PhoneProperty::ConsonantRelease(ConsonantRelease::Dental)),
        '\u{2E3}' => Some(PhoneProperty::ConsonantRelease(ConsonantRelease::Velar)),
        '\u{1D4A}' => Some(PhoneProperty::ConsonantRelease(ConsonantRelease::MidCentralVowel)),
        '\u{325}' => Some(PhoneProperty::Phonation(Phonation::Voiceless)),
        '\u{30A}' => Some(PhoneProperty::Phonation(Phonation::Voiceless)),
        '\u{32C}' => Some(PhoneProperty::Phonation(Phonation::Voiced)),
        '\u{324}' => Some(PhoneProperty::Phonation(Phonation::BreathyVoiced)),
        '\u{2B1}' => Some(PhoneProperty::Phonation(Phonation::BreathyVoiced)),
        '\u{330}' => Some(PhoneProperty::Phonation(Phonation::CreakyVoiced)),
        '\u{32A}' => Some(PhoneProperty::Articulation(Articulation::Dental)),
        '\u{33C}' => Some(PhoneProperty::Articulation(Articulation::Linguolabial)),
        '\u{33A}' => Some(PhoneProperty::Articulation(Articulation::Apical)),
        '\u{33B}' => Some(PhoneProperty::Articulation(Articulation::Laminal)),
        '\u{2D6}' => Some(PhoneProperty::Articulation(Articulation::Advanced)),
        '\u{31F}' => Some(PhoneProperty::Articulation(Articulation::Advanced)),
        '\u{2D7}' => Some(PhoneProperty::Articulation(Articulation::Retracted)),
        '\u{320}' => Some(PhoneProperty::Articulation(Articulation::Retracted)),
        '\u{308}' => Some(PhoneProperty::Articulation(Articulation::Centralized)),
        '\u{33D}' => Some(PhoneProperty::Articulation(Articulation::MidCentralized)),
        '\u{2D4}' => Some(PhoneProperty::Articulation(Articulation::Raised)),
        '\u{31D}' => Some(PhoneProperty::Articulation(Articulation::Raised)),
        '\u{2D5}' => Some(PhoneProperty::Articulation(Articulation::Lowered)),
        '\u{31E}' => Some(PhoneProperty::Articulation(Articulation::Lowered)),
        '\u{339}' => Some(PhoneProperty::CoArticulation(CoArticulation::MoreRounded)),
        '\u{31C}' => Some(PhoneProperty::CoArticulation(CoArticulation::LessRounded)),
        '\u{2B7}' => Some(PhoneProperty::CoArticulation(CoArticulation::Labialized)),
        '\u{2B2}' => Some(PhoneProperty::CoArticulation(CoArticulation::Palatalized)),
        '\u{2E4}' => Some(PhoneProperty::CoArticulation(CoArticulation::Pharyngealized)),
        '\u{2E0}' => Some(PhoneProperty::CoArticulation(CoArticulation::Velarized)),
        '\u{334}' => Some(PhoneProperty::CoArticulation(CoArticulation::VelarizedOrPharyngealized)),
        '\u{318}' => Some(PhoneProperty::CoArticulation(CoArticulation::AdvancedTongueRoot)),
        '\u{319}' => Some(PhoneProperty::CoArticulation(CoArticulation::RetractedTongueRoot)),
        '\u{303}' => Some(PhoneProperty::CoArticulation(CoArticulation::Nasalized)),
        '\u{2DE}' => Some(PhoneProperty::CoArticulation(CoArticulation::Rhoticity)),
        '\u{2C8}' => Some(PhoneProperty::Rhythm(Rhythm::PrimaryStress)),
        '\u{2CC}' => Some(PhoneProperty::Rhythm(Rhythm::SecondaryStress)),
        '\u{2D0}' => Some(PhoneProperty::Rhythm(Rhythm::Long)),
        '\u{2D1}' => Some(PhoneProperty::Rhythm(Rhythm::HalfLong)),
        '\u{306}' => Some(PhoneProperty::Rhythm(Rhythm::ExtraShort)),
        '\u{30B}' => Some(PhoneProperty::Tone(Tone::Top)),
        '\u{2E5}' => Some(PhoneProperty::Tone(Tone::Top)),
        '\u{2E6}' => Some(PhoneProperty::Tone(Tone::High)),
        '\u{301}' => Some(PhoneProperty::Tone(Tone::High)),
        '\u{304}' => Some(PhoneProperty::Tone(Tone::Mid)),
        '\u{2E7}' => Some(PhoneProperty::Tone(Tone::Mid)),
        '\u{300}' => Some(PhoneProperty::Tone(Tone::Low)),
        '\u{2E8}' => Some(PhoneProperty::Tone(Tone::Low)),
        '\u{30F}' => Some(PhoneProperty::Tone(Tone::Bottom)),
        '\u{2E9}' => Some(PhoneProperty::Tone(Tone::Bottom)),
        '\u{30C}' => Some(PhoneProperty::Tone(Tone::Rising)),
        '\u{302}' => Some(PhoneProperty::Tone(Tone::Falling)),
        '\u{A71B}' => Some(PhoneProperty::Tone(Tone::Upstep)),
        '\u{A71C}' => Some(PhoneProperty::Tone(Tone::Downstep)),
        '|' => Some(PhoneProperty::Intonation(Intonation::MinorBreak)),
        '\u{2016}' => Some(PhoneProperty::Intonation(Intonation::MajorBreak)),
        '\u{2197}' => Some(PhoneProperty::Intonation(Intonation::GlobalRise)),
        '\u{2198}' => Some(PhoneProperty::Intonation(Intonation::GlobalFall)),
        _ => None,
    }
}

/// Writes a consonant as its preferred character.
pub fn consonant_ipa(consonant: Consonant) -> (written: Option<char>)
    ensures
        written == ipa_of_consonant(consonant),
{
    match consonant {
        Consonant { place: ConsonantPlace::Bilabial, manner: ConsonantManner::Stop, phonation: Phonation::Voiceless } => Some('p'),
        Consonant { place: ConsonantPlace::Bilabial, manner: ConsonantManner::Stop, phonation: Phonation::Voiced } => Some('b'),
        Consonant { place: ConsonantPlace::Alveolar, manner: ConsonantManner::Stop, phonation: Phonation::Voiceless } => Some('t'),
        Consonant { place: ConsonantPlace::Alveolar, manner: ConsonantManner::Stop, phonation: Phonation::Voiced } => Some('d'),
        Consonant { place: ConsonantPlace::Retroflex, manner: ConsonantManner::Stop, phonation: Phonation::Voiceless } => Some('\u{288}'),
        Consonant { place: ConsonantPlace::Retroflex, manner: ConsonantManner::Stop, phonation: Phonation::Voiced } => Some('\u{256}'),
        Consonant { place: ConsonantPlace::Palatal, manner: ConsonantManner::Stop, phonation: Phonation::Voiceless } => Some('c'),
        Consonant { place: ConsonantPlace::Palatal, manner: ConsonantManner::Stop, phonation: Phonation::Voiced } => Some('\u{25F}'),
        Consonant { place: ConsonantPlace::Velar, manner: ConsonantManner::Stop, phonation: Phonation::Voiceless } => Some('k'),
        Consonant { place: ConsonantPlace::Velar, manner: ConsonantManner::Stop, phonation: Phonation::Voiced } => Some('g'),
        Consonant { place: ConsonantPlace::Uvular, manner: ConsonantManner::Stop, phonation: Phonation::Voiceless } => Some('q'),
        Consonant { place: ConsonantPlace::Uvular, manner: ConsonantManner::Stop, phonation: Phonation::Voiced } => Some('\u{262}'),
        Consonant { place: ConsonantPlace::Pharyngeal, manner: ConsonantManner::Stop, phonation: Phonation::Voiceless } => Some('\u{2A1}'),
        Consonant { place: ConsonantPlace::Glottal, manner: ConsonantManner::Stop, phonation: Phonation::Voiceless } => Some('\u{294}'),
        Consonant { place: ConsonantPlace::Bilabial, manner: ConsonantManner::Nasal, phonation: Phonation::Voiced } => Some('m'),
        Consonant { place: ConsonantPlace::LabioDental, manner: ConsonantManner::Nasal, phonation: Phonation::Voiced } => Some('\u{271}'),
        Consonant { place: ConsonantPlace::Alveolar, manner: ConsonantManner::Nasal, phonation: Phonation::Voiced } => Some('n'),
        Consonant { place: ConsonantPlace::Retroflex, manner: ConsonantManner::Nasal, phonation: Phonation::Voiced } => Some('\u{273}'),
        Consonant { place: ConsonantPlace::Palatal, manner: ConsonantManner::Nasal, phonation: Phonation::Voiced } => Some('\u{272}'),
        Consonant { place: ConsonantPlace::Velar, manner: ConsonantManner::Nasal, phonation: Phonation::Voiced } => Some('\u{14B}'),
        Consonant { place: ConsonantPlace::Uvular, manner: ConsonantManner::Nasal, phonation: Phonation::Voiced } => Some('\u{274}'),
        Consonant { place: ConsonantPlace::Bilabial, manner: ConsonantManner::Trill, phonation: Phonation::Voiced } => Some('\u{299}'),
        Consonant { place: ConsonantPlace::Alveolar, manner: ConsonantManner::Trill, phonation: Phonation::Voiced } => Some('r'),
        Consonant { place: ConsonantPlace::Uvular, manner: ConsonantManner::Trill, phonation: Phonation::Voiced } => Some('\u{280}'),
        Consonant { place: ConsonantPlace::LabioDental, manner: ConsonantManner::Tap, phonation: Phonation::Voiced } => Some('\u{2C71}'),
        Consonant { place: ConsonantPlace::Alveolar, manner: ConsonantManner::Tap, phonation: Phonation::Voiced } => Some('\u{27E}'),
        Consonant { place: ConsonantPlace::Retroflex, manner: ConsonantManner::Tap, phonation: Phonation::Voiced } => Some('\u{27D}'),
        Consonant { place: ConsonantPlace::Bilabial, manner: ConsonantManner::Fricative, phonation: Phonation::Voiceless } => Some('\u{278}'),
        Consonant { place: ConsonantPlace::Bilabial, manner: ConsonantManner::Fricative, phonation: Phonation::Voiced } => Some('\u{3B2}'),
        Consonant { place: ConsonantPlace::LabioDental, manner: ConsonantManner::Fricative, phonation: Phonation::Voiceless } => Some('f'),
        Consonant { place: ConsonantPlace::LabioDental, manner: ConsonantManner::Fricative, phonation: Phonation::Voiced } => Some('v'),
        Consonant { place: ConsonantPlace::Dental, manner: ConsonantManner::Fricative, phonation: Phonation::Voiceless } => Some('\u{3B8}'),
        Consonant { place: ConsonantPlace::Dental, manner: ConsonantManner::Fricative, phonation: Phonation::Voiced } => Some('\u{F0}'),
        Consonant { place: ConsonantPlace::Alveolar, manner: ConsonantManner::SibilantFricative, phonation: Phonation::Voiceless } => Some('s'),
        Consonant { place: ConsonantPlace::Alveolar, manner: ConsonantManner::SibilantFricative, phonation: Phonation::Voiced } => Some('z'),
        Consonant { place: ConsonantPlace::PostAlveolar, manner: ConsonantManner::SibilantFricative, phonation: Phonation::Voiceless } => Some('\u{283}'),
        Consonant { place: ConsonantPlace::PostAlveolar, manner: ConsonantManner::SibilantFricative, phonation: Phonation::Voiced } => Some('\u{292}'),
        Consonant { place: ConsonantPlace::Retroflex, manner: ConsonantManner::SibilantFricative, phonation: Phonation::Voiceless } => Some('\u{282}'),
        Consonant { place: ConsonantPlace::Retroflex, manner: ConsonantManner::SibilantFricative, phonation: Phonation::Voiced } => Some('\u{290}'),
        Consonant { place: ConsonantPlace::Palatal, manner: ConsonantManner::SibilantFricative, phonation: Phonation::Voiceless } => Some('\u{255}'),
        Consonant { place: ConsonantPlace::Palatal, manner: ConsonantManner::SibilantFricative, phonation: Phonation::Voiced } => Some('\u{291}'),
        Consonant { place: ConsonantPlace::Palatal, manner: ConsonantManner::Fricative, phonation: Phonation::Voiceless } => Some('\u{E7}'),
        Consonant { place: ConsonantPlace::Palatal, manner: ConsonantManner::Fricative, phonation: Phonation::Voiced } => Some('\u{29D}'),
        Consonant { place: ConsonantPlace::Velar, manner: ConsonantManner::Fricative, phonation: Phonation::Voiceless } => Some('x'),
        Consonant { place: ConsonantPlace::Velar, manner: ConsonantManner::Fricative, phonation: Phonation::Voiced } => Some('\u{263}'),
        Consonant { place: ConsonantPlace::Uvular, manner: ConsonantManner::Fricative, phonation: Phonation::Voiceless } => Some('\u{3C7}'),
        Consonant { place: ConsonantPlace::Uvular, manner: ConsonantManner::Fricative, phonation: Phonation::Voiced } => Some('\u{281}'),
        Consonant { place: ConsonantPlace::Pharyngeal, manner: ConsonantManner::Fricative, phonation: Phonation::Voiceless } => Some('\u{127}'),
        Consonant { place: ConsonantPlace::Pharyngeal, manner: ConsonantManner::Fricative, phonation: Phonation::Voiced } => Some('\u{295}'),
        Consonant { place: ConsonantPlace::Glottal, manner: ConsonantManner::Fricative, phonation: Phonation::Voiceless } => Some('h'),
        Consonant { place: ConsonantPlace::Glottal, manner: ConsonantManner::Fricative, phonation: Phonation::Voiced } => Some('\u{266}'),
        Consonant { place: ConsonantPlace::Alveolar, manner: ConsonantManner::LateralFricative, phonation: Phonation::Voiceless } => Some('\u{26C}'),
        Consonant { place: ConsonantPlace::Alveolar, manner: ConsonantManner::LateralFricative, phonation: Phonation::Voiced } => Some('\u{26E}'),
        Consonant { place: ConsonantPlace::LabioDental, manner: ConsonantManner::Approximant, phonation: Phonation::Voiced } => Some('\u{28B}'),
        Consonant { place: ConsonantPlace::Alveolar, manner: ConsonantManner::Approximant, phonation: Phonation::Voiced } => Some('\u{279}'),
        Consonant { place: ConsonantPlace::Retroflex, manner: ConsonantManner::Approximant, phonation: Phonation::Voiced } => Some('\u{27B}'),
        Consonant { place: ConsonantPlace::Palatal, manner: ConsonantManner::Approximant, phonation: Phonation::Voiced } => Some('j'),
        Consonant { place: ConsonantPlace::LabioVelar, manner: ConsonantManner::Approximant, phonation: Phonation::Voiced } => Some('w'),
        Consonant { place: ConsonantPlace::Velar, manner: ConsonantManner::Approximant, phonation: Phonation::Voiced } => Some('\u{270}'),
        Consonant { place: ConsonantPlace::Alveolar, manner: ConsonantManner::LateralApproximant, phonation: Phonation::Voiced } => Some('l'),
        Consonant { place: ConsonantPlace::Retroflex, manner: ConsonantManner::LateralApproximant, phonation: Phonation::Voiced } => Some('\u{26D}'),
        Consonant { place: ConsonantPlace::Palatal, manner: ConsonantManner::LateralApproximant, phonation: Phonation::Voiced } => Some('\u{28E}'),
        Consonant { place: ConsonantPlace::Palatal, manner: ConsonantManner::LateralApproximant, phonation: Phonation::Voiceless } => Some('\u{29F}'),
        Consonant { place: ConsonantPlace::Alveolar, manner: ConsonantManner::LateralTap, phonation: Phonation::Voiced } => Some('\u{27A}'),
        _ => None,
    }
}

/// Writes a vowel as its preferred character.
pub fn vowel_ipa(vowel: Vowel) -> (written: Option<char>)
    ensures
        written == ipa_of_vowel(vowel),
{
    match vowel {
        Vowel { height: Height::Close, backness: Backness::Front, roundness: Roundness::UnRounded } => Some('i'),
        Vowel { height: Height::Close, backness: Backness::Front, roundness: Roundness::Rounded } => Some('y'),
        Vowel { height: Height::Close, backness: Backness::Central, roundness: Roundness::UnRounded } => Some('\u{268}'),
        Vowel { height: Height::Close, backness: Backness::Central, roundness: Roundness::Rounded } => Some('\u{289}'),
        Vowel { height: Height::Close, backness: Backness::Back, roundness: Roundness::UnRounded } => Some('\u{26F}'),
        Vowel { height: Height::Close, backness: Backness::Back, roundness: Roundness::Rounded } => Some('u'),
        Vowel { height: Height::NearClose, backness: Backness::Front, roundness: Roundness::UnRounded } => Some('\u{26A}'),
        Vowel { height: Height::NearClose, backness: Backness::Front, roundness: Roundness::Rounded } => Some('\u{28F}'),
        Vowel { height: Height::NearClose, backness: Backness::Back, roundness: Roundness::Rounded } => Some('\u{28A}'),
        Vowel { height: Height::CloseMid, backness: Backness::Front, roundness: Roundness::UnRounded } => Some('e'),
        Vowel { height: Height::CloseMid, backness: Backness::Front, roundness: Roundness::Rounded } => Some('\u{F8}'),
        Vowel { height: Height::CloseMid, backness: Backness::Central, roundness: Roundness::UnRounded } => Some('\u{258}'),
        Vowel { height: Height::CloseMid, backness: Backness::Central, roundness: Roundness::Rounded } => Some('\u{275}'),
        Vowel { height: Height::CloseMid, backness: Backness::Back, roundness: Roundness::UnRounded } => Some('\u{264}'),
        Vowel { height: Height::CloseMid, backness: Backness::Back, roundness: Roundness::Rounded } => Some('o'),
        Vowel { height: Height::Mid, backness: Backness::Central, roundness: Roundness::Undefined } => Some('\u{259}'),
        Vowel { height: Height::OpenMid, backness: Backness::Front, roundness: Roundness::UnRounded } => Some('\u{25B}'),
        Vowel { height: Height::OpenMid, backness: Backness::Front, roundness: Roundness::Rounded } => Some('\u{153}'),
        Vowel { height: Height::OpenMid, backness: Backness::Central, roundness: Roundness::UnRounded } => Some('\u{25C}'),
        Vowel { height: Height::OpenMid, backness: Backness::Central, roundness: Roundness::Rounded } => Some('\u{25E}'),
        Vowel { height: Height::OpenMid, backness: Backness::Back, roundness: Roundness::UnRounded } => Some('\u{28C}'),
        Vowel { height: Height::OpenMid, backness: Backness::Back, roundness: Roundness::Rounded } => Some('\u{254}'),
        Vowel { height: Height::NearOpen, backness: Backness::Front, roundness: Roundness::UnRounded } => Some('\u{E6}'),
        Vowel { height: Height::NearOpen, backness: Backness::Central, roundness: Roundness::Undefined } => Some('\u{250}'),
        Vowel { height: Height::Open, backness: Backness::Front, roundness: Roundness::UnRounded } => Some('a'),
        Vowel { height: Height::Open, backness: Backness::Front, roundness: Roundness::Rounded } => Some('\u{276}'),
        Vowel { height: Height::Open, backness: Backness::Back, roundness: Roundness::UnRounded } => Some('\u{251}'),
        Vowel { height: Height::Open, backness: Backness::Back, roundness: Roundness::Rounded } => Some('\u{252}'),
        _ => None,
    }
}

/// Writes a diacritic as its preferred character.
pub fn diacritic_ipa(property: PhoneProperty) -> (written: Option<char>)
    ensures
        written == ipa_of_diacritic(property),
{
    match property {
        PhoneProperty::ConsonantRelease(ConsonantRelease::Aspirated) => Some('\u{2B0}'),
        PhoneProperty::ConsonantRelease(ConsonantRelease::NoAudible) => Some('\u{31A}'),
        PhoneProperty::ConsonantRelease(ConsonantRelease::Nasal) => Some('\u{207F}'),
        PhoneProperty::ConsonantRelease(ConsonantRelease::Lateral) => Some('\u{2E1}'),
        PhoneProperty::ConsonantRelease(ConsonantRelease::Dental) => Some('\u{1DBF}'),
        PhoneProperty::ConsonantRelease(ConsonantRelease::Velar) => Some('\u{2E3}'),
        PhoneProperty::ConsonantRelease(ConsonantRelease::MidCentralVowel) => Some('\u{1D4A}'),
        PhoneProperty::Phonation(Phonation::Voiceless) => Some('\u{325}'),
        PhoneProperty::Phonation(Phonation::Voiced) => Some('\u{32C}'),
        PhoneProperty::Phonation(Phonation::BreathyVoiced) => Some('\u{2B1}'),
        PhoneProperty::Phonation(Phonation::CreakyVoiced) => Some('\u{330}'),
        PhoneProperty::Articulation(Articulation::Dental) => Some('\u{32A}'),
        PhoneProperty::Articulation(Articulation::Linguolabial) => Some('\u{33C}'),
        PhoneProperty::Articulation(Articulation::Apical) => Some('\u{33A}'),
        PhoneProperty::Articulation(Articulation::Laminal) => Some('\u{33B}'),
        PhoneProperty::Articulation(Articulation::Advanced) => Some('\u{31F}'),
        PhoneProperty::Articulation(Articulation::Retracted) => Some('\u{320}'),
        PhoneProperty::Articulation(Articulation::Centralized) => Some('\u{308}'),
        PhoneProperty::Articulation(Articulation::MidCentralized) => Some('\u{33D}'),
        PhoneProperty::Articulation(Articulation::Raised) => Some('\u{31D}'),
        PhoneProperty::Articulation(Articulation::Lowered) => Some('\u{31E}'),
        PhoneProperty::CoArticulation(CoArticulation::MoreRounded) => Some('\u{339}'),
        PhoneProperty::CoArticulation(CoArticulation::LessRounded) => Some('\u{31C}'),
        PhoneProperty::CoArticulation(CoArticulation::Labialized) => Some('\u{2B7}'),
        PhoneProperty::CoArticulation(CoArticulation::Palatalized) => Some('\u{2B2}'),
        PhoneProperty::CoArticulation(CoArticulation::Pharyngealized) => Some('\u{2E4}'),
        PhoneProperty::CoArticulation(CoArticulation::Velarized) => Some('\u{2E0}'),
        PhoneProperty::CoArticulation(CoArticulation::VelarizedOrPharyngealized) => Some('\u{334}'),
        PhoneProperty::CoArticulation(CoArticulation::AdvancedTongueRoot) => Some('\u{318}'),
        PhoneProperty::CoArticulation(CoArticulation::RetractedTongueRoot) => Some('\u{319}'),
        PhoneProperty::CoArticulation(CoArticulation::Nasalized) => Some('\u{303}'),
        PhoneProperty::CoArticulation(CoArticulation::Rhoticity) => Some('\u{2DE}'),
        PhoneProperty::Rhythm(Rhythm::PrimaryStress) => Some('\u{2C8}'),
        PhoneProperty::Rhythm(Rhythm::SecondaryStress) => Some('\u{2CC}'),
        PhoneProperty::Rhythm(Rhythm::Long) => Some('\u{2D0}'),
        PhoneProperty::Rhythm(Rhythm::HalfLong) => Some('\u{2D1}'),
        PhoneProperty::Rhythm(Rhythm::ExtraShort) => Some('\u{306}'),
        PhoneProperty::Tone(Tone::Top) => Some('\u{30B}'),
        PhoneProperty::Tone(Tone::High) => Some('\u{301}'),
        PhoneProperty::Tone(Tone::Mid) => Some('\u{304}'),
        PhoneProperty::Tone(Tone::Low) => Some('\u{300}'),
        PhoneProperty::Tone(Tone::Bottom) => Some('\u{30F}'),
        PhoneProperty::Tone(Tone::Rising) => Some('\u{30C}'),
        PhoneProperty::Tone(Tone::Falling) => Some('\u{302}'),
        PhoneProperty::Tone(Tone::Upstep) => Some('\u{A71B}'),
        PhoneProperty::Tone(Tone::Downstep) => Some('\u{A71C}'),
        PhoneProperty::Intonation(Intonation::MinorBreak) => Some('|'),
        PhoneProperty::Intonation(Intonation::MajorBreak) => Some('\u{2016}'),
        PhoneProperty::Intonation(Intonation::GlobalRise) => Some('\u{2197}'),
        PhoneProperty::Intonation(Intonation::GlobalFall) => Some('\u{2198}'),
    }
}

impl Phone {
    /// Reads one character of the alphabet.
    pub fn from_ipa(c: char) -> (found: Option<Phone>)
        ensures
            found == phone_of_ipa(c),
    {
        match consonant_from_ipa(c) {
            Some(consonant) => Some(Phone::Consonant(consonant)),
            None => match vowel_from_ipa(c) {
                Some(vowel) => Some(Phone::Vowel(vowel)),
                None => match diacritic_from_ipa(c) {
                    Some(property) => Some(Phone::Diacritic(property)),
                    None => None,
                },
            },
        }
    }

    /// Writes the phone as its preferred character. A combination of
    /// features that the alphabet has no character for gives `None`.
    pub fn ipa(self) -> (written: Option<char>)
        ensures
            written == ipa_of_phone(self),
    {
        match self {
            Phone::Consonant(consonant) => consonant_ipa(consonant),
            Phone::Vowel(vowel) => vowel_ipa(vowel),
            Phone::Diacritic(property) => diacritic_ipa(property),
        }
    }
}

impl TryFrom<char> for Phone {
    type Error = &'static str;

    fn try_from(value: char) -> (found: Result<Self, Self::Error>) {
        match Phone::from_ipa(value) {
            Some(phone) => Ok(phone),
            None => Err("no match"),
        }
    }
}

impl vstd::std_specs::convert::TryFromSpecImpl<char> for Phone {
    open spec fn obeys_try_from_spec() -> bool {
        true
    }

    open spec fn try_from_spec(value: char) -> Result<Self, Self::Error> {
        match phone_of_ipa(value) {
            Some(phone) => Ok(phone),
            None => Err("no match"),
        }
    }
}

/// Reading back what was written gives the phone that was written.
pub proof fn lemma_read_after_write(phone: Phone)
    requires
        ipa_of_phone(phone) is Some,
    ensures
        phone_of_ipa(ipa_of_phone(phone)->0) == Some(phone),
{
}

/// A phone that some character stands for can be written, and its preferred
/// character stands for the same phone.
pub proof fn lemma_write_after_read(c: char)
    requires
        phone_of_ipa(c) is Some,
    ensures
        ipa_of_phone(phone_of_ipa(c)->0) is Some,
        phone_of_ipa(ipa_of_phone(phone_of_ipa(c)->0)->0) == phone_of_ipa(c),
{
}

/// Every diacritic has a character.
pub proof fn lemma_every_diacritic_is_written(property: PhoneProperty)
    ensures
        ipa_of_diacritic(property) is Some,
{
}

} // verus!
