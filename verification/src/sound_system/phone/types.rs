//! The closed catalogue of phone features.
use vstd::prelude::*;

verus! {

/// A sequence of phones, as one letter may stand for several.
pub type Phones = Vec<Phone>;

/// One sound of speech, or a mark that modifies one.
#[derive(Debug, PartialEq, Eq, Structural, Clone, Copy, Hash)]
pub enum Phone {
    Consonant(Consonant),
    Vowel(Vowel),
    Diacritic(PhoneProperty),
}

#[derive(Debug, PartialEq, Eq, Structural, Clone, Copy, Hash)]
pub struct Vowel {
    pub height: Height,
    pub backness: Backness,
    pub roundness: Roundness,
}

#[derive(Debug, PartialEq, Eq, Structural, Clone, Copy, PartialOrd, Ord, Hash)]
pub enum Height {
    Close,
    NearClose,
    CloseMid,
    Mid,
    OpenMid,
    NearOpen,
    Open,
}

#[derive(Debug, PartialEq, Eq, Structural, Clone, Copy, PartialOrd, Ord, Hash)]
pub enum Backness {
    Front,
    Central,
    Back,
}

#[derive(Debug, PartialEq, Eq, Structural, Clone, Copy, PartialOrd, Ord, Hash)]
pub enum Roundness {
    UnRounded,
    Rounded,
    Undefined,
}

#[derive(Debug, PartialEq, Eq, Structural, Clone, Copy, Hash)]
pub struct Consonant {
    pub place: ConsonantPlace,
    pub manner: ConsonantManner,
    pub phonation: Phonation,
}

#[derive(Debug, PartialEq, Eq, Structural, Clone, Copy, PartialOrd, Ord, Hash)]
pub enum ConsonantPlace {
    Bilabial,
    LabioDental,
    LabioVelar,
    Dental,
    Alveolar,
    PostAlveolar,
    Retroflex,
    Palatal,
    Velar,
    Uvular,
    Pharyngeal,
    Glottal,
}

#[derive(Debug, PartialEq, Eq, Structural, Clone, Copy, PartialOrd, Ord, Hash)]
pub enum ConsonantManner {
    Stop,
    SibilantFricative,
    Fricative,
    Nasal,
    Trill,
    Tap,
    LateralFricative,
    Approximant,
    LateralApproximant,
    LateralTap,
}

#[derive(Debug, PartialEq, Eq, Structural, Clone, Copy, PartialOrd, Ord, Hash)]
pub enum PhoneProperty {
    ConsonantRelease(ConsonantRelease),
    Phonation(Phonation),
    Articulation(Articulation),
    CoArticulation(CoArticulation),
    Rhythm(Rhythm),
    Tone(Tone),
    Intonation(Intonation),
}

#[derive(Debug, PartialEq, Eq, Structural, Clone, Copy, PartialOrd, Ord, Hash)]
pub enum ConsonantRelease {
    Aspirated,
    NoAudible,
    Nasal,
    Lateral,
    Dental,
    Velar,
    MidCentralVowel,
}

#[derive(Debug, PartialEq, Eq, Structural, Clone, Copy, PartialOrd, Ord, Hash)]
pub enum Phonation {
    Voiceless,
    Voiced,
    BreathyVoiced,
    CreakyVoiced,
}

#[derive(Debug, PartialEq, Eq, Structural, Clone, Copy, PartialOrd, Ord, Hash)]
pub enum Articulation {
    Dental,
    Linguolabial,
    Apical,
    Laminal,
    Advanced,
    Retracted,
    Raised,
    Lowered,
    Centralized,
    MidCentralized,
}

#[derive(Debug, PartialEq, Eq, Structural, Clone, Copy, PartialOrd, Ord, Hash)]
pub enum CoArticulation {
    MoreRounded,
    LessRounded,
    Labialized,
    Palatalized,
    Velarized,
    Pharyngealized,
    VelarizedOrPharyngealized,
    AdvancedTongueRoot,
    RetractedTongueRoot,
    Nasalized,
    Rhoticity,
}

#[derive(Debug, PartialEq, Eq, Structural, Clone, Copy, PartialOrd, Ord, Hash)]
pub enum Rhythm {
    PrimaryStress,
    SecondaryStress,
    Long,
    HalfLong,
    ExtraShort,
}

#[derive(Debug, PartialEq, Eq, Structural, Clone, Copy, PartialOrd, Ord, Hash)]
pub enum Intonation {
    MinorBreak,
    MajorBreak,
    GlobalRise,
    GlobalFall,
}

#[derive(Debug, PartialEq, Eq, Structural, Clone, Copy, PartialOrd, Ord, Hash)]
pub enum Tone {
    Top,
    Upstep,
    High,
    Rising,
    Mid,
    Low,
    Falling,
    Bottom,
    Downstep,
}

} // verus!
