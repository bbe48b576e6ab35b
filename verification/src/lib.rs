//! Core of a spaced-repetition study client for kanji and vocabulary.
//!
//! The library contains the parts of the client that carry real logic and
//! proves them correct:
//!
//! - the transliteration engine that turns romanized phonetic input into
//!   the native syllabary ([`kana`]),
//! - the answer validator that checks free-text answers against accepted
//!   meanings and readings ([`validate`]),
//! - the review and lesson session state machines ([`review`], [`lesson`]),
//! - the plain data model of subjects, assignments, summaries and users
//!   that those components read ([`subject`], [`assignment`], [`summary`],
//!   [`user`]).
//!
//! Everything that talks to the outside world - the HTTP client, the
//! terminal front ends, the configuration store, the glyph renderer -
//! lives in the surrounding application, which drives the state machines
//! here with plain values and performs the actions they decide on.

pub mod assignment;
pub mod channel;
pub mod config;
pub mod kana;
pub mod lesson;
pub mod review;
pub mod subject;
pub mod summary;
pub mod text;
pub mod user;
pub mod validate;

pub use channel::display_text;
pub use kana::romaji_to_hiragana;
pub use text::normalize_string;
pub use validate::validate_reading;
