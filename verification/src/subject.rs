//! The data model of learning subjects.
//!
//! A subject is one immutable learnable unit fetched from the remote
//! service.  It is polymorphic over four variants - radical, kanji,
//! vocabulary and kana-only vocabulary - each carrying display characters
//! (radicals may instead carry reference images), an ordered list of
//! accepted meanings, and, for all but radicals, an ordered list of
//! accepted readings.  A kana-vocabulary subject's reading is its
//! characters.
//!
//! The types here hold plain values only; timestamps and other fields the
//! session logic never reads stay with the surrounding application.

use vstd::prelude::*;

verus! {

/// An accepted English-equivalent gloss for a subject.
#[derive(Debug, Clone)]
pub struct Meaning {
    pub meaning: String,
    pub primary: Option<bool>,
    pub accepted_answer: Option<bool>,
}

/// An accepted phonetic pronunciation of a subject, in the native
/// syllabary.
#[derive(Debug, Clone)]
pub struct Reading {
    pub reading: String,
    pub primary: bool,
    pub accepted_answer: bool,
    pub type_: Option<String>,
}

/// An example sentence attached to a vocabulary subject.
#[derive(Debug, Clone)]
pub struct ContextSentence {
    pub en: String,
    pub ja: String,
}

/// Descriptive attributes of a pronunciation recording.
#[derive(Debug, Clone)]
pub struct PronunciationAudioMetadata {
    pub gender: String,
    pub source_id: u64,
    pub pronunciation: String,
    pub voice_actor_id: u64,
    pub voice_actor_name: String,
    pub voice_description: String,
}

/// A pronunciation recording attached to a vocabulary subject.
#[derive(Debug, Clone)]
pub struct PronunciationAudio {
    pub url: String,
    pub metadata: PronunciationAudioMetadata,
    pub content_type: String,
}

/// Descriptive attributes of a radical's reference image.
#[derive(Debug, Clone)]
pub struct CharacterImageMetadata {
    pub inline_styles: Option<bool>,
    pub color: Option<String>,
    pub dimensions: Option<String>,
    pub style_name: Option<String>,
}

/// A reference image for a radical that has no display characters.
#[derive(Debug, Clone)]
pub struct CharacterImage {
    pub url: String,
    pub content_type: String,
    pub metadata: CharacterImageMetadata,
}

/// A radical subject.  It may carry display characters or, failing that,
/// reference images; it has accepted meanings and no readings.
#[derive(Debug, Clone)]
pub struct RadicalData {
    pub amalgamation_subject_ids: Vec<u64>,
    pub auxiliary_meanings: Vec<Meaning>,
    pub characters: Option<String>,
    pub character_images: Vec<CharacterImage>,
    pub document_url: String,
    pub lesson_position: u8,
    pub level: u8,
    pub meanings: Vec<Meaning>,
    pub meaning_mnemonic: String,
    pub slug: String,
    pub spaced_repetition_system_id: u8,
}

/// A kanji subject, with accepted meanings and readings.
#[derive(Debug, Clone)]
pub struct KanjiData {
    pub amalgamation_subject_ids: Vec<u64>,
    pub auxiliary_meanings: Vec<Meaning>,
    pub characters: String,
    pub component_subject_ids: Vec<u64>,
    pub document_url: String,
    pub lesson_position: u8,
    pub level: u8,
    pub meanings: Vec<Meaning>,
    pub meaning_hint: Option<String>,
    pub meaning_mnemonic: String,
    pub readings: Vec<Reading>,
    pub reading_mnemonic: String,
    pub reading_hint: Option<String>,
    pub slug: String,
    pub visually_similar_subject_ids: Vec<u64>,
    pub spaced_repetition_system_id: u8,
}

/// A vocabulary subject, with accepted meanings and readings.
#[derive(Debug, Clone)]
pub struct VocabularyData {
    pub auxiliary_meanings: Vec<Meaning>,
    pub characters: String,
    pub component_subject_ids: Vec<u64>,
    pub context_sentences: Vec<ContextSentence>,
    pub document_url: String,
    pub lesson_position: u8,
    pub level: u8,
    pub meanings: Vec<Meaning>,
    pub meaning_mnemonic: String,
    pub parts_of_speech: Vec<String>,
    pub pronunciation_audios: Vec<PronunciationAudio>,
    pub readings: Vec<Reading>,
    pub reading_mnemonic: String,
    pub slug: String,
    pub spaced_repetition_system_id: u8,
}

/// A kana-only vocabulary subject.  Its reading is its characters.
#[derive(Debug, Clone)]
pub struct KanaVocabularyData {
    pub level: u8,
    pub slug: String,
    pub document_url: String,
    pub characters: String,
    pub meanings: Vec<Meaning>,
    pub auxiliary_meanings: Vec<Meaning>,
    pub parts_of_speech: Vec<String>,
    pub meaning_mnemonic: String,
    pub context_sentences: Vec<ContextSentence>,
    pub pronunciation_audios: Vec<PronunciationAudio>,
    pub lesson_position: u8,
    pub spaced_repetition_system_id: u8,
}

/// The four subject variants, as a closed tagged type with one exhaustive
/// match point per behaviour.
#[derive(Debug, Clone)]
pub enum SubjectData {
    Radical(RadicalData),
    Kanji(KanjiData),
    Vocabulary(VocabularyData),
    KanaVocabulary(KanaVocabularyData),
}

/// One learnable unit fetched from the remote service.
#[derive(Debug, Clone)]
pub struct Subject {
    pub id: u64,
    pub url: String,
    pub data: SubjectData,
}

/// The accepted meanings of a subject.
pub open spec fn spec_meanings(d: SubjectData) -> Seq<Meaning> {
    match d {
        SubjectData::Radical(r) => r.meanings@,
        SubjectData::Kanji(k) => k.meanings@,
        SubjectData::Vocabulary(v) => v.meanings@,
        SubjectData::KanaVocabulary(v) => v.meanings@,
    }
}

/// The accepted meaning texts of a subject.
pub open spec fn meaning_texts(d: SubjectData) -> Seq<Seq<char>> {
    spec_meanings(d).map_values(|m: Meaning| m.meaning@)
}

/// The accepted reading texts of a subject: the literal characters for
/// kana vocabulary, the reading list for kanji and vocabulary, none for
/// radicals.
pub open spec fn reading_texts(d: SubjectData) -> Seq<Seq<char>> {
    match d {
        SubjectData::Radical(_) => Seq::empty(),
        SubjectData::Kanji(k) => k.readings@.map_values(|r: Reading| r.reading@),
        SubjectData::Vocabulary(v) => v.readings@.map_values(|r: Reading| r.reading@),
        SubjectData::KanaVocabulary(v) => seq![v.characters@],
    }
}

/// The display characters of a subject; an image-backed radical has none.
pub open spec fn spec_characters(d: SubjectData) -> Option<Seq<char>> {
    match d {
        SubjectData::Radical(r) => match r.characters {
            Some(c) => Some(c@),
            None => None,
        },
        SubjectData::Kanji(k) => Some(k.characters@),
        SubjectData::Vocabulary(v) => Some(v.characters@),
        SubjectData::KanaVocabulary(v) => Some(v.characters@),
    }
}

impl Subject {
    /// Whether this subject is a radical.  Radicals are never asked for a
    /// reading.
    pub fn is_radical(&self) -> (b: bool)
        ensures
            b == (self.data is Radical),
    {
        match &self.data {
            SubjectData::Radical(_) => true,
            _ => false,
        }
    }

    /// The accepted meanings, through the one exhaustive match point.
    pub fn meanings(&self) -> (r: &Vec<Meaning>)
        ensures
            r@ == spec_meanings(self.data),
    {
        match &self.data {
            SubjectData::Radical(r) => &r.meanings,
            SubjectData::Kanji(k) => &k.meanings,
            SubjectData::Vocabulary(v) => &v.meanings,
            SubjectData::KanaVocabulary(v) => &v.meanings,
        }
    }

    /// The accepted reading strings, through the one exhaustive match
    /// point: a kana-vocabulary subject accepts its characters, a radical
    /// accepts nothing.
    pub fn reading_strings(&self) -> (r: Vec<String>)
        ensures
            r@.map_values(|s: String| s@) == reading_texts(self.data),
    {
        match &self.data {
            SubjectData::Radical(_) => {
                let r: Vec<String> = Vec::new();
                proof {
                    assert(r@.map_values(|s: String| s@) =~= reading_texts(self.data));
                }
                r
            },
            SubjectData::Kanji(k) => {
                let r = reading_list(&k.readings);
                proof {
                    assert(r@.map_values(|s: String| s@) =~= reading_texts(self.data));
                }
                r
            },
            SubjectData::Vocabulary(v) => {
                let r = reading_list(&v.readings);
                proof {
                    assert(r@.map_values(|s: String| s@) =~= reading_texts(self.data));
                }
                r
            },
            SubjectData::KanaVocabulary(v) => {
                let mut r: Vec<String> = Vec::new();
                r.push(v.characters.clone());
                proof {
                    assert(r@.map_values(|s: String| s@) =~= reading_texts(self.data));
                }
                r
            },
        }
    }

    /// The display characters; `None` for an image-backed radical, whose
    /// reference image stands in for them.
    pub fn characters(&self) -> (r: Option<&String>)
        ensures
            match r {
                Some(c) => spec_characters(self.data) == Some(c@),
                None => spec_characters(self.data) is None,
            },
    {
        match &self.data {
            SubjectData::Radical(rad) => match &rad.characters {
                Some(c) => Some(c),
                None => None,
            },
            SubjectData::Kanji(k) => Some(&k.characters),
            SubjectData::Vocabulary(v) => Some(&v.characters),
            SubjectData::KanaVocabulary(v) => Some(&v.characters),
        }
    }
}

/// The reading strings of a reading list, in order.
fn reading_list(readings: &Vec<Reading>) -> (r: Vec<String>)
    ensures
        r@.map_values(|s: String| s@) == readings@.map_values(|rd: Reading| rd.reading@),
{
    let mut r: Vec<String> = Vec::new();
    let mut i: usize = 0;
    while i < readings.len()
        invariant
            i <= readings@.len(),
            r@.len() == i,
            forall|j: int| 0 <= j < i ==> r@[j]@ == readings@[j].reading@,
        decreases readings@.len() - i,
    {
        r.push(readings[i].reading.clone());
        i = i + 1;
    }
    proof {
        assert(r@.map_values(|s: String| s@) =~= readings@.map_values(|rd: Reading| rd.reading@));
    }
    r
}

} // verus!
