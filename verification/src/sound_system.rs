//! The sound system and the operations on it.
pub mod charts;
pub mod class_table;
pub mod compiler;
pub mod display;
pub mod distribution;
pub mod generator;
pub mod inference;
pub mod pattern;
pub mod phone;
pub mod phonology;
pub mod resolver;
pub mod rules;
pub mod specificity;
pub mod spelling;
pub mod system;
pub mod table;
pub mod types;

pub use compiler::convert_ipa_letters_to_sounds;
pub use rules::{sound_trasformation, History, Transformation};
pub use system::SoundSystem;
pub use types::{
    Class, Condition, ConditionOperand, ConditionType, Distribution, MonoSyllableRepartition,
    Phoneme, PhonemeCondition, PhonemeDifference, Rule, Syllable,
};
