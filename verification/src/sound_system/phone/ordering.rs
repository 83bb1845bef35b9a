//! The phonological order of phones.
//!
//! Consonants stand above vowels and vowels above diacritics. Within
//! consonants, and within vowels, a phone that has a counterpart (voiced
//! against voiceless, rounded against unrounded) stands above one that has
//! none; after that the features decide, each in the reverse of the order in
//! which its values are declared.
use super::types::{
    Backness, Consonant, ConsonantManner, ConsonantPlace, Height, Phonation, Phone, Roundness,
    Vowel,
};
use std::cmp::Ordering;
use vstd::prelude::*;
use vstd::std_specs::cmp::PartialOrdSpecImpl;

verus! {

impl Height {
    /// The position of the value in the declaration.
    pub open spec fn ordinal(self) -> int {
        match self {
            Height::Close => 0,
            Height::NearClose => 1,
            Height::CloseMid => 2,
            Height::Mid => 3,
            Height::OpenMid => 4,
            Height::NearOpen => 5,
            Height::Open => 6,
        }
    }

    fn rank(self) -> (r: u8)
        ensures
            r == self.ordinal(),
    {
        match self {
            Height::Close => 0,
            Height::NearClose => 1,
            Height::CloseMid => 2,
            Height::Mid => 3,
            Height::OpenMid => 4,
            Height::NearOpen => 5,
            Height::Open => 6,
        }
    }
}

impl Backness {
    /// The position of the value in the declaration.
    pub open spec fn ordinal(self) -> int {
        match self {
            Backness::Front => 0,
            Backness::Central => 1,
            Backness::Back => 2,
        }
    }

    fn rank(self) -> (r: u8)
        ensures
            r == self.ordinal(),
    {
        match self {
            Backness::Front => 0,
            Backness::Central => 1,
            Backness::Back => 2,
        }
    }
}

impl Roundness {
    /// The position of the value in the declaration.
    pub open spec fn ordinal(self) -> int {
        match self {
            Roundness::UnRounded => 0,
            Roundness::Rounded => 1,
            Roundness::Undefined => 2,
        }
    }

    fn rank(self) -> (r: u8)
        ensures
            r == self.ordinal(),
    {
        match self {
            Roundness::UnRounded => 0,
            Roundness::Rounded => 1,
            Roundness::Undefined => 2,
        }
    }

    /// Rounded against unrounded; an undefined roundness has no opposite.
    pub open spec fn opposite(self) -> Option<Roundness> {
        match self {
            Roundness::Rounded => Some(Roundness::UnRounded),
            Roundness::UnRounded => Some(Roundness::Rounded),
            Roundness::Undefined => None,
        }
    }

    pub fn pair(self) -> (other: Option<Roundness>)
        ensures
            other == self.opposite(),
    {
        match self {
            Roundness::Rounded => Some(Roundness::UnRounded),
            Roundness::UnRounded => Some(Roundness::Rounded),
            Roundness::Undefined => None,
        }
    }
}

impl ConsonantPlace {
    /// The position of the value in the declaration.
    pub open spec fn ordinal(self) -> int {
        match self {
            ConsonantPlace::Bilabial => 0,
            ConsonantPlace::LabioDental => 1,
            ConsonantPlace::LabioVelar => 2,
            ConsonantPlace::Dental => 3,
            ConsonantPlace::Alveolar => 4,
            ConsonantPlace::PostAlveolar => 5,
            ConsonantPlace::Retroflex => 6,
            ConsonantPlace::Palatal => 7,
            ConsonantPlace::Velar => 8,
            ConsonantPlace::Uvular => 9,
            ConsonantPlace::Pharyngeal => 10,
            ConsonantPlace::Glottal => 11,
        }
    }

    fn rank(self) -> (r: u8)
        ensures
            r == self.ordinal(),
    {
        match self {
            ConsonantPlace::Bilabial => 0,
            ConsonantPlace::LabioDental => 1,
            ConsonantPlace::LabioVelar => 2,
            ConsonantPlace::Dental => 3,
            ConsonantPlace::Alveolar => 4,
            ConsonantPlace::PostAlveolar => 5,
            ConsonantPlace::Retroflex => 6,
            ConsonantPlace::Palatal => 7,
            ConsonantPlace::Velar => 8,
            ConsonantPlace::Uvular => 9,
            ConsonantPlace::Pharyngeal => 10,
            ConsonantPlace::Glottal => 11,
        }
    }
}

impl ConsonantManner {
    /// The position of the value in the declaration.
    pub open spec fn ordinal(self) -> int {
        match self {
            ConsonantManner::Stop => 0,
            ConsonantManner::SibilantFricative => 1,
            ConsonantManner::Fricative => 2,
            ConsonantManner::Nasal => 3,
            ConsonantManner::Trill => 4,
            ConsonantManner::Tap => 5,
            ConsonantManner::LateralFricative => 6,
            ConsonantManner::Approximant => 7,
            ConsonantManner::LateralApproximant => 8,
            ConsonantManner::LateralTap => 9,
        }
    }

    fn rank(self) -> (r: u8)
        ensures
            r == self.ordinal(),
    {
        match self {
            ConsonantManner::Stop => 0,
            ConsonantManner::SibilantFricative => 1,
            ConsonantManner::Fricative => 2,
            ConsonantManner::Nasal => 3,
            ConsonantManner::Trill => 4,
            ConsonantManner::Tap => 5,
            ConsonantManner::LateralFricative => 6,
            ConsonantManner::Approximant => 7,
            ConsonantManner::LateralApproximant => 8,
            ConsonantManner::LateralTap => 9,
        }
    }
}

impl Phonation {
    /// The position of the value in the declaration.
    pub open spec fn ordinal(self) -> int {
        match self {
            Phonation::Voiceless => 0,
            Phonation::Voiced => 1,
            Phonation::BreathyVoiced => 2,
            Phonation::CreakyVoiced => 3,
        }
    }

    fn rank(self) -> (r: u8)
        ensures
            r == self.ordinal(),
    {
        match self {
            Phonation::Voiceless => 0,
            Phonation::Voiced => 1,
            Phonation::BreathyVoiced => 2,
            Phonation::CreakyVoiced => 3,
        }
    }

    /// Voiced against voiceless; the other phonations have no opposite.
    pub open spec fn opposite(self) -> Option<Phonation> {
        match self {
            Phonation::Voiced => Some(Phonation::Voiceless),
            Phonation::Voiceless => Some(Phonation::Voiced),
            _ => None,
        }
    }

    pub fn pair(self) -> (other: Option<Phonation>)
        ensures
            other == self.opposite(),
    {
        match self {
            Phonation::Voiced => Some(Phonation::Voiceless),
            Phonation::Voiceless => Some(Phonation::Voiced),
            _ => None,
        }
    }
}

impl Vowel {
    /// Whether vowels of this height and backness come in a rounded and an
    /// unrounded form.
    pub open spec fn comes_in_two(self) -> bool {
        match self.height {
            Height::Mid | Height::NearOpen => false,
            Height::NearClose => self.backness == Backness::Front,
            _ => true,
        }
    }

    /// The vowel that differs in roundness alone, where there is one.
    pub open spec fn counterpart(self) -> Option<Vowel> {
        if self.roundness.opposite() is Some && self.comes_in_two() {
            Some(
                Vowel {
                    height: self.height,
                    backness: self.backness,
                    roundness: self.roundness.opposite()->0,
                },
            )
        } else {
            None
        }
    }

    pub fn pair(self) -> (other: Option<Vowel>)
        ensures
            other == self.counterpart(),
    {
        match self.roundness.pair() {
            None => None,
            Some(opposite) => {
                let two = match self.height {
                    Height::Mid | Height::NearOpen => false,
                    Height::NearClose => self.backness == Backness::Front,
                    _ => true,
                };
                if two {
                    Some(Vowel { height: self.height, backness: self.backness, roundness: opposite })
                } else {
                    None
                }
            },
        }
    }
}

impl Consonant {
    /// Whether the consonant is one of those that have no counterpart
    /// although their phonation has an opposite.
    pub open spec fn stands_alone(self) -> bool {
        match (self.manner, self.phonation) {
            (ConsonantManner::Stop, Phonation::Voiceless) => {
                self.place == ConsonantPlace::Pharyngeal || self.place == ConsonantPlace::Glottal
            },
            (ConsonantManner::Nasal, Phonation::Voiced) => {
                self.place == ConsonantPlace::Bilabial || self.place == ConsonantPlace::LabioDental
                    || self.place == ConsonantPlace::Alveolar || self.place
                    == ConsonantPlace::Retroflex || self.place == ConsonantPlace::Palatal
                    || self.place == ConsonantPlace::Velar || self.place == ConsonantPlace::Uvular
            },
            (ConsonantManner::Trill, Phonation::Voiced) => {
                self.place == ConsonantPlace::Bilabial || self.place == ConsonantPlace::Alveolar
                    || self.place == ConsonantPlace::Uvular
            },
            (ConsonantManner::Tap, Phonation::Voiced) => {
                self.place == ConsonantPlace::LabioDental || self.place == ConsonantPlace::Alveolar
                    || self.place == ConsonantPlace::Retroflex
            },
            (ConsonantManner::Approximant, Phonation::Voiced) => {
                self.place == ConsonantPlace::LabioDental || self.place == ConsonantPlace::Alveolar
                    || self.place == ConsonantPlace::Retroflex || self.place
                    == ConsonantPlace::Palatal || self.place == ConsonantPlace::LabioVelar
                    || self.place == ConsonantPlace::Velar
            },
            (ConsonantManner::LateralApproximant, Phonation::Voiced) => {
                self.place == ConsonantPlace::Alveolar || self.place == ConsonantPlace::Retroflex
            },
            (ConsonantManner::LateralTap, Phonation::Voiced) => {
                self.place == ConsonantPlace::Alveolar
            },
            _ => false,
        }
    }

    /// The consonant that differs in phonation alone, where there is one.
    pub open spec fn counterpart(self) -> Option<Consonant> {
        if self.phonation.opposite() is Some && !self.stands_alone() {
            Some(
                Consonant {
                    place: self.place,
                    manner: self.manner,
                    phonation: self.phonation.opposite()->0,
                },
            )
        } else {
            None
        }
    }

    fn is_alone(self) -> (alone: bool)
        ensures
            alone == self.stands_alone(),
    {
        match (self.manner, self.phonation) {
            (ConsonantManner::Stop, Phonation::Voiceless) => {
                self.place == ConsonantPlace::Pharyngeal || self.place == ConsonantPlace::Glottal
            },
            (ConsonantManner::Nasal, Phonation::Voiced) => {
                self.place == ConsonantPlace::Bilabial || self.place == ConsonantPlace::LabioDental
                    || self.place == ConsonantPlace::Alveolar || self.place
                    == ConsonantPlace::Retroflex || self.place == ConsonantPlace::Palatal
                    || self.place == ConsonantPlace::Velar || self.place == ConsonantPlace::Uvular
            },
            (ConsonantManner::Trill, Phonation::Voiced) => {
                self.place == ConsonantPlace::Bilabial || self.place == ConsonantPlace::Alveolar
                    || self.place == ConsonantPlace::Uvular
            },
            (ConsonantManner::Tap, Phonation::Voiced) => {
                self.place == ConsonantPlace::LabioDental || self.place == ConsonantPlace::Alveolar
                    || self.place == ConsonantPlace::Retroflex
            },
            (ConsonantManner::Approximant, Phonation::Voiced) => {
                self.place == ConsonantPlace::LabioDental || self.place == ConsonantPlace::Alveolar
                    || self.place == ConsonantPlace::Retroflex || self.place
                    == ConsonantPlace::Palatal || self.place == ConsonantPlace::LabioVelar
                    || self.place == ConsonantPlace::Velar
            },
            (ConsonantManner::LateralApproximant, Phonation::Voiced) => {
                self.place == ConsonantPlace::Alveolar || self.place == ConsonantPlace::Retroflex
            },
            (ConsonantManner::LateralTap, Phonation::Voiced) => {
                self.place == ConsonantPlace::Alveolar
            },
            _ => false,
        }
    }

    pub fn pair(self) -> (other: Option<Consonant>)
        ensures
            other == self.counterpart(),
    {
        match self.phonation.pair() {
            None => None,
            Some(opposite) => {
                if self.is_alone() {
                    None
                } else {
                    Some(Consonant { place: self.place, manner: self.manner, phonation: opposite })
                }
            },
        }
    }
}

/// The order of two positions: whichever is declared later stands lower.
pub open spec fn later_is_lower(left: int, right: int) -> Ordering {
    if right < left {
        Ordering::Less
    } else if right == left {
        Ordering::Equal
    } else {
        Ordering::Greater
    }
}

/// The first order, unless it is a tie; then the second.
pub open spec fn or_else(first: Ordering, second: Ordering) -> Ordering {
    match first {
        Ordering::Equal => second,
        _ => first,
    }
}

/// The order of two vowels: with a counterpart above without, then by
/// height, backness and roundness.
pub open spec fn vowel_order(left: Vowel, right: Vowel) -> Ordering {
    if left.counterpart() is Some && right.counterpart() is None {
        Ordering::Greater
    } else if left.counterpart() is None && right.counterpart() is Some {
        Ordering::Less
    } else {
        or_else(
            later_is_lower(left.height.ordinal(), right.height.ordinal()),
            or_else(
                later_is_lower(left.backness.ordinal(), right.backness.ordinal()),
                later_is_lower(left.roundness.ordinal(), right.roundness.ordinal()),
            ),
        )
    }
}

/// The order of two consonants: with a counterpart above without, then by
/// manner, place and phonation.
pub open spec fn consonant_order(left: Consonant, right: Consonant) -> Ordering {
    if left.counterpart() is Some && right.counterpart() is None {
        Ordering::Greater
    } else if left.counterpart() is None && right.counterpart() is Some {
        Ordering::Less
    } else {
        or_else(
            later_is_lower(left.manner.ordinal(), right.manner.ordinal()),
            or_else(
                later_is_lower(left.place.ordinal(), right.place.ordinal()),
                later_is_lower(left.phonation.ordinal(), right.phonation.ordinal()),
            ),
        )
    }
}

/// The order of two phones.
pub open spec fn phone_order(left: Phone, right: Phone) -> Ordering {
    match (left, right) {
        (Phone::Consonant(l), Phone::Consonant(r)) => consonant_order(l, r),
        (Phone::Vowel(l), Phone::Vowel(r)) => vowel_order(l, r),
        (Phone::Diacritic(_), Phone::Diacritic(_)) => Ordering::Equal,
        (Phone::Consonant(_), _) => Ordering::Greater,
        (Phone::Vowel(_), Phone::Diacritic(_)) => Ordering::Greater,
        _ => Ordering::Less,
    }
}

/// The order seen from the other side.
pub open spec fn reversed(order: Ordering) -> Ordering {
    match order {
        Ordering::Less => Ordering::Greater,
        Ordering::Equal => Ordering::Equal,
        Ordering::Greater => Ordering::Less,
    }
}

fn compare_heights(left: Height, right: Height) -> (order: Ordering)
    ensures
        order == later_is_lower(left.ordinal(), right.ordinal()),
{
    let l: u8 = left.rank();
    let r: u8 = right.rank();
    if r < l {
        Ordering::Less
    } else if r == l {
        Ordering::Equal
    } else {
        Ordering::Greater
    }
}

fn compare_backnesses(left: Backness, right: Backness) -> (order: Ordering)
    ensures
        order == later_is_lower(left.ordinal(), right.ordinal()),
{
    let l: u8 = left.rank();
    let r: u8 = right.rank();
    if r < l {
        Ordering::Less
    } else if r == l {
        Ordering::Equal
    } else {
        Ordering::Greater
    }
}

fn compare_roundnesses(left: Roundness, right: Roundness) -> (order: Ordering)
    ensures
        order == later_is_lower(left.ordinal(), right.ordinal()),
{
    let l: u8 = left.rank();
    let r: u8 = right.rank();
    if r < l {
        Ordering::Less
    } else if r == l {
        Ordering::Equal
    } else {
        Ordering::Greater
    }
}

fn compare_manners(left: ConsonantManner, right: ConsonantManner) -> (order: Ordering)
    ensures
        order == later_is_lower(left.ordinal(), right.ordinal()),
{
    let l: u8 = left.rank();
    let r: u8 = right.rank();
    if r < l {
        Ordering::Less
    } else if r == l {
        Ordering::Equal
    } else {
        Ordering::Greater
    }
}

fn compare_places(left: ConsonantPlace, right: ConsonantPlace) -> (order: Ordering)
    ensures
        order == later_is_lower(left.ordinal(), right.ordinal()),
{
    let l: u8 = left.rank();
    let r: u8 = right.rank();
    if r < l {
        Ordering::Less
    } else if r == l {
        Ordering::Equal
    } else {
        Ordering::Greater
    }
}

fn compare_phonations(left: Phonation, right: Phonation) -> (order: Ordering)
    ensures
        order == later_is_lower(left.ordinal(), right.ordinal()),
{
    let l: u8 = left.rank();
    let r: u8 = right.rank();
    if r < l {
        Ordering::Less
    } else if r == l {
        Ordering::Equal
    } else {
        Ordering::Greater
    }
}

fn first_or(first: Ordering, second: Ordering) -> (order: Ordering)
    ensures
        order == or_else(first, second),
{
    match first {
        Ordering::Equal => second,
        _ => first,
    }
}

pub fn compare_vowel(left: Vowel, right: Vowel) -> (order: Ordering)
    ensures
        order == vowel_order(left, right),
{
    match (left.pair(), right.pair()) {
        (Some(_), None) => Ordering::Greater,
        (None, Some(_)) => Ordering::Less,
        _ => first_or(
            compare_heights(left.height, right.height),
            first_or(
                compare_backnesses(left.backness, right.backness),
                compare_roundnesses(left.roundness, right.roundness),
            ),
        ),
    }
}

pub fn compare_consonant(left: Consonant, right: Consonant) -> (order: Ordering)
    ensures
        order == consonant_order(left, right),
{
    match (left.pair(), right.pair()) {
        (Some(_), None) => Ordering::Greater,
        (None, Some(_)) => Ordering::Less,
        _ => first_or(
            compare_manners(left.manner, right.manner),
            first_or(
                compare_places(left.place, right.place),
                compare_phonations(left.phonation, right.phonation),
            ),
        ),
    }
}

/// Compares two phones in the phonological order.
pub fn compare_phone(left: Phone, right: Phone) -> (order: Ordering)
    ensures
        order == phone_order(left, right),
{
    match (left, right) {
        (Phone::Consonant(l), Phone::Consonant(r)) => compare_consonant(l, r),
        (Phone::Vowel(l), Phone::Vowel(r)) => compare_vowel(l, r),
        (Phone::Diacritic(_), Phone::Diacritic(_)) => Ordering::Equal,
        (Phone::Consonant(_), _) => Ordering::Greater,
        (Phone::Vowel(_), Phone::Diacritic(_)) => Ordering::Greater,
        _ => Ordering::Less,
    }
}

/// Whether `left` stands above `right` in the phonological order.
pub open spec fn stands_above(left: Phone, right: Phone) -> bool {
    phone_order(left, right) == Ordering::Greater
}

impl Phone {
    /// Whether this phone stands above the other in the phonological order.
    pub fn is_above(self, other: Phone) -> (above: bool)
        ensures
            above == stands_above(self, other),
    {
        match compare_phone(self, other) {
            Ordering::Greater => true,
            _ => false,
        }
    }
}

impl PartialOrd for Phone {
    fn partial_cmp(&self, other: &Self) -> (order: Option<Ordering>) {
        Some(compare_phone(*self, *other))
    }
}

impl PartialOrdSpecImpl for Phone {
    open spec fn obeys_partial_cmp_spec() -> bool {
        true
    }

    open spec fn partial_cmp_spec(&self, other: &Self) -> Option<Ordering> {
        Some(phone_order(*self, *other))
    }
}

/// Every consonant stands above every vowel, and every vowel above every
/// diacritic.
pub proof fn lemma_kinds_are_layered(left: Phone, right: Phone)
    ensures
        left is Consonant && !(right is Consonant) ==> phone_order(left, right)
            == Ordering::Greater,
        left is Vowel && right is Diacritic ==> phone_order(left, right) == Ordering::Greater,
        left is Diacritic && right is Diacritic ==> phone_order(left, right) == Ordering::Equal,
{
}

/// Swapping the two phones reverses their order.
pub proof fn lemma_order_reverses(left: Phone, right: Phone)
    ensures
        phone_order(right, left) == reversed(phone_order(left, right)),
{
}

/// Two phones tie only if they are the same phone or both are diacritics.
pub proof fn lemma_ties(left: Phone, right: Phone)
    ensures
        phone_order(left, right) == Ordering::Equal <==> left == right || (left is Diacritic
            && right is Diacritic),
{
}

/// The order is transitive.
pub proof fn lemma_order_is_transitive(low: Phone, mid: Phone, high: Phone)
    requires
        phone_order(low, mid) != Ordering::Greater,
        phone_order(mid, high) != Ordering::Greater,
    ensures
        phone_order(low, high) != Ordering::Greater,
        phone_order(low, mid) == Ordering::Less || phone_order(mid, high) == Ordering::Less
            ==> phone_order(low, high) == Ordering::Less,
{
}

/// No phone stands above itself, and of two phones at most one stands above
/// the other.
pub proof fn lemma_above_is_strict(left: Phone, right: Phone)
    ensures
        !stands_above(left, left),
        !(stands_above(left, right) && stands_above(right, left)),
{
}

/// What stands above a phone stands above all that the phone stands above.
pub proof fn lemma_above_is_transitive(high: Phone, mid: Phone, low: Phone)
    requires
        stands_above(high, mid),
        stands_above(mid, low),
    ensures
        stands_above(high, low),
{
}

/// Of two different phones one stands above the other, unless both are
/// diacritics.
pub proof fn lemma_above_is_total(left: Phone, right: Phone)
    ensures
        stands_above(left, right) || stands_above(right, left) || left == right || (
        left is Diacritic && right is Diacritic),
{
}

/// A consonant and its counterpart, where each is the other's, are
/// neighbours: no phone stands strictly between them.
pub proof fn lemma_paired_consonants_are_neighbours(one: Consonant, other: Consonant, between: Phone)
    requires
        one.counterpart() == Some(other),
        other.counterpart() == Some(one),
    ensures
        !(phone_order(Phone::Consonant(one), between) == Ordering::Less && phone_order(
            between,
            Phone::Consonant(other),
        ) == Ordering::Less),
{
}

/// A vowel and its counterpart are neighbours: no phone stands strictly
/// between them.
pub proof fn lemma_paired_vowels_are_neighbours(one: Vowel, other: Vowel, between: Phone)
    requires
        one.counterpart() == Some(other),
    ensures
        other.counterpart() == Some(one),
        !(phone_order(Phone::Vowel(one), between) == Ordering::Less && phone_order(
            between,
            Phone::Vowel(other),
        ) == Ordering::Less),
{
}

} // verus!
