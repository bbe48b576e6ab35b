//! Answer validator: decides whether a learner's free-text answer matches
//! a subject's accepted meanings or readings.
//!
//! Every comparison is made on normalized text (trimmed, lower-cased), so
//! checking is case- and whitespace-insensitive.  Reading checks accept
//! either script: an answer matches if it equals an accepted reading
//! outright, or if its transliteration to the syllabary does.  The
//! validator is total: it never fails, it only answers `true` or `false`.

use vstd::prelude::*;

use crate::kana::transliterate_chars;
use crate::kana::transliterated;
use crate::subject::Subject;
use crate::subject::SubjectData;
use crate::subject::meaning_texts;
use crate::subject::reading_texts;
use crate::text::chars_of;
use crate::text::eq_chars;
use crate::text::normalize_chars;
use crate::text::normalized;

verus! {

/// The answer equals one of the accepted texts, after normalization.
pub open spec fn direct_match(accepted: Seq<Seq<char>>, answer: Seq<char>) -> bool {
    exists|i: int| 0 <= i < accepted.len() && normalized(accepted[i]) == normalized(answer)
}

/// The transliteration of the normalized answer equals one of the accepted
/// texts, after normalization.
pub open spec fn romaji_match(accepted: Seq<Seq<char>>, answer: Seq<char>) -> bool {
    exists|i: int|
        0 <= i < accepted.len() && normalized(accepted[i]) == transliterated(normalized(answer))
}

/// A reading answer is accepted through either path: verbatim in the
/// native script, or romanized and transliterated.
pub open spec fn reading_accepted(accepted: Seq<Seq<char>>, answer: Seq<char>) -> bool {
    direct_match(accepted, answer) || romaji_match(accepted, answer)
}

/// A meaning answer is accepted exactly when it equals an accepted meaning
/// after normalization.
pub open spec fn meaning_accepted(d: SubjectData, answer: Seq<char>) -> bool {
    direct_match(meaning_texts(d), answer)
}

/// A reading answer is accepted exactly when it matches an accepted
/// reading through either path.  A radical has no accepted readings, so no
/// answer is accepted for it.
pub open spec fn reading_matches(d: SubjectData, answer: Seq<char>) -> bool {
    reading_accepted(reading_texts(d), answer)
}

/// Whether the user's reading answer matches one of the accepted readings,
/// in the native script or romanized.
pub fn validate_reading(user_input: &str, accepted_readings: &[String]) -> (b: bool)
    ensures
        b == reading_accepted(
            accepted_readings@.map_values(|s: String| s@),
            user_input@,
        ),
{
    let ghost accepted = accepted_readings@.map_values(|s: String| s@);
    let user = chars_of(user_input);
    let norm_user = normalize_chars(&user);
    let n = accepted_readings.len();
    let mut i: usize = 0;
    while i < n
        invariant
            n == accepted_readings@.len(),
            i <= n,
            accepted == accepted_readings@.map_values(|s: String| s@),
            norm_user@ == normalized(user_input@),
            forall|j: int| 0 <= j < i ==> normalized(accepted[j]) != normalized(user_input@),
        decreases n - i,
    {
        let rd = vstd::slice::slice_index_get(accepted_readings, i);
        let rc = chars_of(rd.as_str());
        let nr = normalize_chars(&rc);
        if eq_chars(&nr, &norm_user) {
            proof {
                assert(accepted[i as int] == accepted_readings@[i as int]@);
                assert(normalized(accepted[i as int]) == normalized(user_input@));
            }
            return true;
        }
        i = i + 1;
    }
    let roma = transliterate_chars(&norm_user);
    let mut i: usize = 0;
    while i < n
        invariant
            n == accepted_readings@.len(),
            i <= n,
            accepted == accepted_readings@.map_values(|s: String| s@),
            roma@ == transliterated(normalized(user_input@)),
            !direct_match(accepted, user_input@),
            forall|j: int|
                0 <= j < i ==> normalized(accepted[j]) != transliterated(normalized(user_input@)),
        decreases n - i,
    {
        let rd = vstd::slice::slice_index_get(accepted_readings, i);
        let rc = chars_of(rd.as_str());
        let nr = normalize_chars(&rc);
        if eq_chars(&nr, &roma) {
            proof {
                assert(accepted[i as int] == accepted_readings@[i as int]@);
                assert(normalized(accepted[i as int]) == transliterated(normalized(user_input@)));
            }
            return true;
        }
        i = i + 1;
    }
    false
}

/// Whether the answer matches one of the subject's accepted meanings.
/// Comparison is case- and whitespace-insensitive.
pub fn check_meaning(subject: &Subject, answer: &str) -> (b: bool)
    ensures
        b == meaning_accepted(subject.data, answer@),
{
    let meanings = subject.meanings();
    let ac = chars_of(answer);
    let na = normalize_chars(&ac);
    let mut i: usize = 0;
    while i < meanings.len()
        invariant
            meanings@ == crate::subject::spec_meanings(subject.data),
            i <= meanings@.len(),
            na@ == normalized(answer@),
            forall|j: int|
                0 <= j < i ==> normalized(meaning_texts(subject.data)[j]) != normalized(answer@),
        decreases meanings@.len() - i,
    {
        let mc = chars_of(meanings[i].meaning.as_str());
        let nm = normalize_chars(&mc);
        if eq_chars(&nm, &na) {
            proof {
                assert(meaning_texts(subject.data)[i as int] == meanings@[i as int].meaning@);
                assert(normalized(meaning_texts(subject.data)[i as int]) == normalized(answer@));
            }
            return true;
        }
        i = i + 1;
    }
    false
}

/// Whether the answer matches one of the subject's accepted readings,
/// in the native script or romanized.  A radical accepts no reading.
pub fn check_reading(subject: &Subject, answer: &str) -> (b: bool)
    ensures
        b == reading_matches(subject.data, answer@),
{
    let readings = subject.reading_strings();
    validate_reading(answer, readings.as_slice())
}

} // verus!
