//! A phonology toolkit for constructed languages.
//!
//! A sound system describes the letters of a language, the phones each letter
//! stands for, the classes letters fall into, syllable shapes and ordered
//! sound-change rules. From it the library generates words, applies the sound
//! changes to word lists, and spells words out in the International Phonetic
//! Alphabet.
pub mod sound_system;
pub mod text;
pub mod wgl;
