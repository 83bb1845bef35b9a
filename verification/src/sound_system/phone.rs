//! Phones: consonants, vowels and diacritics, their IPA characters, their
//! phonological order and the letter classes they belong to.
pub mod classes;
pub mod codec;
pub mod ordering;
pub mod types;

pub use types::{
    Articulation, Backness, CoArticulation, Consonant, ConsonantManner, ConsonantPlace,
    ConsonantRelease, Height, Intonation, Phonation, Phone, PhoneProperty, Phones, Rhythm,
    Roundness, Tone, Vowel,
};
