//! The letter classes that a phone puts its letter into.
//!
//! Each class has a one-letter name. A vowel belongs to `V` and to one class
//! each for its height, backness and roundness; a consonant to `C` and to one
//! class each for its place, manner and voicing. A diacritic belongs to none.
use super::types::{
    Backness, Consonant, ConsonantManner, ConsonantPlace, Height, Phonation, Phone, Roundness,
    Vowel,
};
use vstd::prelude::*;

verus! {

/// The class of a vowel's height.
pub open spec fn height_class(height: Height) -> char {
    match height {
        Height::Close => 'H',
        Height::CloseMid | Height::NearClose => 'E',
        Height::Mid | Height::OpenMid => 'O',
        _ => 'L',
    }
}

/// The class of a vowel's backness.
pub open spec fn backness_class(backness: Backness) -> char {
    match backness {
        Backness::Front => 'F',
        Backness::Central => 'A',
        Backness::Back => 'B',
    }
}

/// The class of a vowel's roundness.
pub open spec fn roundness_class(roundness: Roundness) -> char {
    match roundness {
        Roundness::UnRounded => 'U',
        Roundness::Rounded => 'O',
        Roundness::Undefined => 'Y',
    }
}

/// The class of a consonant's place.
pub open spec fn place_class(place: ConsonantPlace) -> char {
    match place {
        ConsonantPlace::Bilabial | ConsonantPlace::LabioDental | ConsonantPlace::LabioVelar => 'M',
        ConsonantPlace::Dental | ConsonantPlace::Alveolar | ConsonantPlace::PostAlveolar => 'D',
        ConsonantPlace::Retroflex => 'T',
        ConsonantPlace::Palatal => 'J',
        ConsonantPlace::Velar => 'G',
        ConsonantPlace::Uvular => 'Q',
        ConsonantPlace::Pharyngeal | ConsonantPlace::Glottal => 'T',
    }
}

/// The class of a consonant's manner.
pub open spec fn manner_class(manner: ConsonantManner) -> char {
    match manner {
        ConsonantManner::Stop => 'P',
        ConsonantManner::Fricative
        | ConsonantManner::SibilantFricative
        | ConsonantManner::LateralFricative => 'X',
        ConsonantManner::Nasal
        | ConsonantManner::Trill
        | ConsonantManner::Tap
        | ConsonantManner::LateralTap => 'N',
        ConsonantManner::Approximant | ConsonantManner::LateralApproximant => 'W',
    }
}

/// The class of a consonant's voicing.
pub open spec fn voicing_class(phonation: Phonation) -> char {
    match phonation {
        Phonation::Voiced => 'Z',
        _ => 'S',
    }
}

/// The names of the classes of a phone, in the order in which they are
/// reported: the kind first, then one class for each feature.
pub open spec fn class_names(phone: Phone) -> Option<Seq<char>> {
    match phone {
        Phone::Vowel(vowel) => Some(
            seq![
                'V',
                height_class(vowel.height),
                backness_class(vowel.backness),
                roundness_class(vowel.roundness),
            ],
        ),
        Phone::Consonant(consonant) => Some(
            seq![
                'C',
                place_class(consonant.place),
                manner_class(consonant.manner),
                voicing_class(consonant.phonation),
            ],
        ),
        Phone::Diacritic(_) => None,
    }
}

/// A list of class names written out as one-letter strings.
pub open spec fn spelled(names: Seq<&'static str>, letters: Seq<char>) -> bool {
    &&& names.len() == letters.len()
    &&& forall|i: int| 0 <= i < names.len() ==> (#[trigger] names[i])@ == seq![letters[i]]
}

fn height_name(height: Height) -> (name: &'static str)
    ensures
        name@ == seq![height_class(height)],
{
    proof {
        reveal_strlit("H");
        reveal_strlit("E");
        reveal_strlit("O");
        reveal_strlit("L");
    }
    let name = match height {
        Height::Close => "H",
        Height::CloseMid | Height::NearClose => "E",
        Height::Mid | Height::OpenMid => "O",
        _ => "L",
    };
    assert(name@ =~= seq![height_class(height)]);
    name
}

fn backness_name(backness: Backness) -> (name: &'static str)
    ensures
        name@ == seq![backness_class(backness)],
{
    proof {
        reveal_strlit("F");
        reveal_strlit("A");
        reveal_strlit("B");
    }
    let name = match backness {
        Backness::Front => "F",
        Backness::Central => "A",
        Backness::Back => "B",
    };
    assert(name@ =~= seq![backness_class(backness)]);
    name
}

fn roundness_name(roundness: Roundness) -> (name: &'static str)
    ensures
        name@ == seq![roundness_class(roundness)],
{
    proof {
        reveal_strlit("U");
        reveal_strlit("O");
        reveal_strlit("Y");
    }
    let name = match roundness {
        Roundness::UnRounded => "U",
        Roundness::Rounded => "O",
        Roundness::Undefined => "Y",
    };
    assert(name@ =~= seq![roundness_class(roundness)]);
    name
}

fn place_name(place: ConsonantPlace) -> (name: &'static str)
    ensures
        name@ == seq![place_class(place)],
{
    proof {
        reveal_strlit("M");
        reveal_strlit("D");
        reveal_strlit("T");
        reveal_strlit("J");
        reveal_strlit("G");
        reveal_strlit("Q");
    }
    let name = match place {
        ConsonantPlace::Bilabial | ConsonantPlace::LabioDental | ConsonantPlace::LabioVelar => "M",
        ConsonantPlace::Dental | ConsonantPlace::Alveolar | ConsonantPlace::PostAlveolar => "D",
        ConsonantPlace::Retroflex => "T",
        ConsonantPlace::Palatal => "J",
        ConsonantPlace::Velar => "G",
        ConsonantPlace::Uvular => "Q",
        ConsonantPlace::Pharyngeal | ConsonantPlace::Glottal => "T",
    };
    assert(name@ =~= seq![place_class(place)]);
    name
}

fn manner_name(manner: ConsonantManner) -> (name: &'static str)
    ensures
        name@ == seq![manner_class(manner)],
{
    proof {
        reveal_strlit("P");
        reveal_strlit("X");
        reveal_strlit("N");
        reveal_strlit("W");
    }
    let name = match manner {
        ConsonantManner::Stop => "P",
        ConsonantManner::Fricative
        | ConsonantManner::SibilantFricative
        | ConsonantManner::LateralFricative => "X",
        ConsonantManner::Nasal
        | ConsonantManner::Trill
        | ConsonantManner::Tap
        | ConsonantManner::LateralTap => "N",
        ConsonantManner::Approximant | ConsonantManner::LateralApproximant => "W",
    };
    assert(name@ =~= seq![manner_class(manner)]);
    name
}

fn voicing_name(phonation: Phonation) -> (name: &'static str)
    ensures
        name@ == seq![voicing_class(phonation)],
{
    proof {
        reveal_strlit("Z");
        reveal_strlit("S");
    }
    let name = match phonation {
        Phonation::Voiced => "Z",
        _ => "S",
    };
    assert(name@ =~= seq![voicing_class(phonation)]);
    name
}

impl Phone {
    /// The classes that a letter standing for this phone belongs to.
    pub fn classes(&self) -> (found: Option<Vec<&'static str>>)
        ensures
            found is Some <==> class_names(*self) is Some,
            found is Some ==> spelled(found->0@, class_names(*self)->0),
    {
        match self {
            Phone::Vowel(Vowel { height, backness, roundness }) => {
                proof {
                    reveal_strlit("V");
                }
                let kind = "V";
                assert(kind@ =~= seq!['V']);
                let mut result: Vec<&'static str> = Vec::new();
                result.push(kind);
                result.push(height_name(*height));
                result.push(backness_name(*backness));
                result.push(roundness_name(*roundness));
                Some(result)
            },
            Phone::Consonant(Consonant { place, manner, phonation }) => {
                proof {
                    reveal_strlit("C");
                }
                let kind = "C";
                assert(kind@ =~= seq!['C']);
                let mut result: Vec<&'static str> = Vec::new();
                result.push(kind);
                result.push(place_name(*place));
                result.push(manner_name(*manner));
                result.push(voicing_name(*phonation));
                Some(result)
            },
            _ => None,
        }
    }
}

} // verus!
