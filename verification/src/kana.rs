//! Transliteration engine: converts romanized phonetic input into the
//! native syllabary (hiragana).
//!
//! The conversion is a fixed pipeline of literal, leftmost, non-overlapping
//! text replacements, applied in this order:
//!
//! 1. lower-case the input;
//! 2. rewrite `n'` to the syllable-final nasal;
//! 3. rewrite a small set of consonant-cluster digraphs to a geminate
//!    marker plus the remaining digraph;
//! 4. collapse doubled consonants to the geminate marker;
//! 5. apply the two nasal rewrites `nb` to `mb` and `np` to `mp`;
//! 6. substitute contracted (youon) syllables, then plain syllables;
//! 7. substitute bare vowels;
//! 8. apply the long-vowel rewrites.
//!
//! The pipeline is a total function: anything the tables do not map passes
//! through unchanged.  Its exact behaviour is defined by the rule order
//! above, not by linguistic correctness.

use vstd::prelude::*;

use crate::text::chars1;
use crate::text::chars2;
use crate::text::chars3;
use crate::text::chars_of;
use crate::text::lemma_replaced_absent;
use crate::text::lower_chars;
use crate::text::lowered;
use crate::text::replace_chars;
use crate::text::replaced;
use crate::text::string_of;

verus! {

/// The consonants whose doubling is collapsed to the geminate marker.
pub open spec fn is_geminable(c: char) -> bool {
    c == 'k' || c == 's' || c == 't' || c == 'p' || c == 'g' || c == 'd' || c == 'r' || c == 'f'
        || c == 'b' || c == 'j' || c == 'm'
}

fn is_geminable_exec(c: char) -> (b: bool)
    ensures
        b == is_geminable(c),
{
    c == 'k' || c == 's' || c == 't' || c == 'p' || c == 'g' || c == 'd' || c == 'r' || c == 'f'
        || c == 'b' || c == 'j' || c == 'm'
}

/// One left-to-right pass that collapses each pair of adjacent identical
/// geminable consonants into the geminate marker.
pub open spec fn collapsed(s: Seq<char>) -> Seq<char>
    decreases s.len(),
{
    if s.len() < 2 {
        s
    } else if s[0] == s[1] && is_geminable(s[0]) {
        seq!['\u{3063}'] + collapsed(s.skip(2))
    } else {
        seq![s[0]] + collapsed(s.skip(1))
    }
}

/// Collapses doubled geminable consonants into the geminate marker.
fn collapse_chars(s: &Vec<char>) -> (r: Vec<char>)
    ensures
        r@ == collapsed(s@),
{
    let mut out: Vec<char> = Vec::new();
    let mut i: usize = 0;
    proof {
        assert(s@.skip(0) =~= s@);
    }
    while i < s.len()
        invariant
            i <= s@.len(),
            collapsed(s@) == out@ + collapsed(s@.skip(i as int)),
        decreases s@.len() - i,
    {
        if i + 1 < s.len() && s[i] == s[i + 1] && is_geminable_exec(s[i]) {
            proof {
                let t = s@.skip(i as int);
                assert(t[0] == s@[i as int] && t[1] == s@[i as int + 1]);
                assert(t.skip(2) =~= s@.skip(i as int + 2));
                crate::text::lemma_add_assoc(
                    out@,
                    seq!['\u{3063}'],
                    collapsed(s@.skip(i as int + 2)),
                );
                assert(out@.push('\u{3063}') =~= out@ + seq!['\u{3063}']);
            }
            out.push('\u{3063}');
            i = i + 2;
        } else {
            proof {
                let t = s@.skip(i as int);
                if t.len() >= 2 {
                    assert(t[0] == s@[i as int] && t[1] == s@[i as int + 1]);
                } else {
                    assert(collapsed(t) == t);
                    assert(collapsed(t.skip(1)) == t.skip(1));
                    assert(t =~= seq![t[0]] + t.skip(1));
                }
                assert(t[0] == s@[i as int]);
                assert(t.skip(1) =~= s@.skip(i as int + 1));
                crate::text::lemma_add_assoc(
                    out@,
                    seq![t[0]],
                    collapsed(s@.skip(i as int + 1)),
                );
                assert(out@.push(t[0]) =~= out@ + seq![t[0]]);
            }
            out.push(s[i]);
            i = i + 1;
        }
    }
    proof {
        assert(s@.skip(s@.len() as int) =~= Seq::<char>::empty());
        assert(out@ + Seq::<char>::empty() =~= out@);
    }
    out
}

/// An ASCII Latin letter, upper or lower case.
pub open spec fn is_latin_letter(c: char) -> bool {
    ('a' <= c && c <= 'z') || ('A' <= c && c <= 'Z')
}

/// Text containing no ASCII Latin letter.  Syllabary output of the
/// transliteration tables is of this kind.
pub open spec fn latin_free(s: Seq<char>) -> bool {
    forall|i: int| 0 <= i < s.len() ==> !is_latin_letter(s[i])
}

/// Collapsing touches only Latin consonants, so letter-free text is left
/// unchanged.
proof fn lemma_collapsed_unchanged(s: Seq<char>)
    requires
        latin_free(s),
    ensures
        collapsed(s) == s,
    decreases s.len(),
{
    if s.len() < 2 {
    } else if s[0] == s[1] && is_geminable(s[0]) {
        assert(is_latin_letter(s[0]));
        assert(false);
    } else {
        assert(forall|i: int| 0 <= i < s.skip(1).len() ==> s.skip(1)[i] == s[i + 1]);
        lemma_collapsed_unchanged(s.skip(1));
        assert(seq![s[0]] + s.skip(1) =~= s);
    }
}

/// Lower-casing touches only Latin letters, so letter-free text is left
/// unchanged.
proof fn lemma_lowered_unchanged(s: Seq<char>)
    requires
        latin_free(s),
    ensures
        lowered(s) == s,
{
    assert forall|i: int| 0 <= i < s.len() implies lowered(s)[i] == s[i] by {
        assert(!is_latin_letter(s[i]));
    }
    assert(lowered(s) =~= s);
}

/// The consonant-cluster digraph rewrites, applied before generic doubling detection.
pub open spec fn combos_applied(s: Seq<char>) -> Seq<char> {
    let s = replaced(s, seq!['s', 's', 'h'], seq!['っ', 's', 'h']);
    let s = replaced(s, seq!['t', 'c', 'h'], seq!['っ', 'c', 'h']);
    let s = replaced(s, seq!['t', 't'], seq!['っ', 't']);
    let s = replaced(s, seq!['k', 'k'], seq!['っ', 'k']);
    let s = replaced(s, seq!['p', 'p'], seq!['っ', 'p']);
    let s = replaced(s, seq!['s', 's'], seq!['っ', 's']);
    s
}

/// Applies the consonant-cluster digraph rewrites.
fn apply_combos(v: Vec<char>) -> (r: Vec<char>)
    ensures
        r@ == combos_applied(v@),
{
    let v = v;
    let v = replace_chars(&v, &chars3('s', 's', 'h'), &chars3('っ', 's', 'h'));
    let v = replace_chars(&v, &chars3('t', 'c', 'h'), &chars3('っ', 'c', 'h'));
    let v = replace_chars(&v, &chars2('t', 't'), &chars2('っ', 't'));
    let v = replace_chars(&v, &chars2('k', 'k'), &chars2('っ', 'k'));
    let v = replace_chars(&v, &chars2('p', 'p'), &chars2('っ', 'p'));
    let v = replace_chars(&v, &chars2('s', 's'), &chars2('っ', 's'));
    v
}

/// Every pattern of this stage starts with a Latin letter, so
/// letter-free text is left unchanged.
proof fn lemma_combos_unchanged(s: Seq<char>)
    requires
        latin_free(s),
    ensures
        combos_applied(s) == s,
{
    lemma_replaced_absent(s, seq!['s', 's', 'h'], seq!['っ', 's', 'h']);
    lemma_replaced_absent(s, seq!['t', 'c', 'h'], seq!['っ', 'c', 'h']);
    lemma_replaced_absent(s, seq!['t', 't'], seq!['っ', 't']);
    lemma_replaced_absent(s, seq!['k', 'k'], seq!['っ', 'k']);
    lemma_replaced_absent(s, seq!['p', 'p'], seq!['っ', 'p']);
    lemma_replaced_absent(s, seq!['s', 's'], seq!['っ', 's']);
}

/// The two nasal-assimilation rewrites.
pub open spec fn nasals_applied(s: Seq<char>) -> Seq<char> {
    let s = replaced(s, seq!['n', 'b'], seq!['m', 'b']);
    let s = replaced(s, seq!['n', 'p'], seq!['m', 'p']);
    s
}

/// Applies the two nasal-assimilation rewrites.
fn apply_nasals(v: Vec<char>) -> (r: Vec<char>)
    ensures
        r@ == nasals_applied(v@),
{
    let v = v;
    let v = replace_chars(&v, &chars2('n', 'b'), &chars2('m', 'b'));
    let v = replace_chars(&v, &chars2('n', 'p'), &chars2('m', 'p'));
    v
}

/// Every pattern of this stage starts with a Latin letter, so
/// letter-free text is left unchanged.
proof fn lemma_nasals_unchanged(s: Seq<char>)
    requires
        latin_free(s),
    ensures
        nasals_applied(s) == s,
{
    lemma_replaced_absent(s, seq!['n', 'b'], seq!['m', 'b']);
    lemma_replaced_absent(s, seq!['n', 'p'], seq!['m', 'p']);
}

/// The contracted (youon) syllable substitutions, matched before plain syllables.
pub open spec fn youon_applied(s: Seq<char>) -> Seq<char> {
    let s = replaced(s, seq!['k', 'y', 'a'], seq!['き', 'ゃ']);
    let s = replaced(s, seq!['k', 'y', 'u'], seq!['き', 'ゅ']);
    let s = replaced(s, seq!['k', 'y', 'o'], seq!['き', 'ょ']);
    let s = replaced(s, seq!['s', 'h', 'a'], seq!['し', 'ゃ']);
    let s = replaced(s, seq!['s', 'h', 'u'], seq!['し', 'ゅ']);
    let s = replaced(s, seq!['s', 'h', 'o'], seq!['し', 'ょ']);
    let s = replaced(s, seq!['c', 'h', 'a'], seq!['ち', 'ゃ']);
    let s = replaced(s, seq!['c', 'h', 'u'], seq!['ち', 'ゅ']);
    let s = replaced(s, seq!['c', 'h', 'o'], seq!['ち', 'ょ']);
    let s = replaced(s, seq!['n', 'y', 'a'], seq!['に', 'ゃ']);
    let s = replaced(s, seq!['n', 'y', 'u'], seq!['に', 'ゅ']);
    let s = replaced(s, seq!['n', 'y', 'o'], seq!['に', 'ょ']);
    let s = replaced(s, seq!['h', 'y', 'a'], seq!['ひ', 'ゃ']);
    let s = replaced(s, seq!['h', 'y', 'u'], seq!['ひ', 'ゅ']);
    let s = replaced(s, seq!['h', 'y', 'o'], seq!['ひ', 'ょ']);
    let s = replaced(s, seq!['m', 'y', 'a'], seq!['み', 'ゃ']);
    let s = replaced(s, seq!['m', 'y', 'u'], seq!['み', 'ゅ']);
    let s = replaced(s, seq!['m', 'y', 'o'], seq!['み', 'ょ']);
    let s = replaced(s, seq!['r', 'y', 'a'], seq!['り', 'ゃ']);
    let s = replaced(s, seq!['r', 'y', 'u'], seq!['り', 'ゅ']);
    let s = replaced(s, seq!['r', 'y', 'o'], seq!['り', 'ょ']);
    let s = replaced(s, seq!['g', 'y', 'a'], seq!['ぎ', 'ゃ']);
    let s = replaced(s, seq!['g', 'y', 'u'], seq!['ぎ', 'ゅ']);
    let s = replaced(s, seq!['g', 'y', 'o'], seq!['ぎ', 'ょ']);
    let s = replaced(s, seq!['j', 'a'], seq!['じ', 'ゃ']);
    let s = replaced(s, seq!['j', 'u'], seq!['じ', 'ゅ']);
    let s = replaced(s, seq!['j', 'o'], seq!['じ', 'ょ']);
    let s = replaced(s, seq!['b', 'y', 'a'], seq!['び', 'ゃ']);
    let s = replaced(s, seq!['b', 'y', 'u'], seq!['び', 'ゅ']);
    let s = replaced(s, seq!['b', 'y', 'o'], seq!['び', 'ょ']);
    let s = replaced(s, seq!['p', 'y', 'a'], seq!['ぴ', 'ゃ']);
    let s = replaced(s, seq!['p', 'y', 'u'], seq!['ぴ', 'ゅ']);
    let s = replaced(s, seq!['p', 'y', 'o'], seq!['ぴ', 'ょ']);
    s
}

/// Substitutes the contracted (youon) syllables.
fn apply_youon(v: Vec<char>) -> (r: Vec<char>)
    ensures
        r@ == youon_applied(v@),
{
    let v = v;
    let v = replace_chars(&v, &chars3('k', 'y', 'a'), &chars2('き', 'ゃ'));
    let v = replace_chars(&v, &chars3('k', 'y', 'u'), &chars2('き', 'ゅ'));
    let v = replace_chars(&v, &chars3('k', 'y', 'o'), &chars2('き', 'ょ'));
    let v = replace_chars(&v, &chars3('s', 'h', 'a'), &chars2('し', 'ゃ'));
    let v = replace_chars(&v, &chars3('s', 'h', 'u'), &chars2('し', 'ゅ'));
    let v = replace_chars(&v, &chars3('s', 'h', 'o'), &chars2('し', 'ょ'));
    let v = replace_chars(&v, &chars3('c', 'h', 'a'), &chars2('ち', 'ゃ'));
    let v = replace_chars(&v, &chars3('c', 'h', 'u'), &chars2('ち', 'ゅ'));
    let v = replace_chars(&v, &chars3('c', 'h', 'o'), &chars2('ち', 'ょ'));
    let v = replace_chars(&v, &chars3('n', 'y', 'a'), &chars2('に', 'ゃ'));
    let v = replace_chars(&v, &chars3('n', 'y', 'u'), &chars2('に', 'ゅ'));
    let v = replace_chars(&v, &chars3('n', 'y', 'o'), &chars2('に', 'ょ'));
    let v = replace_chars(&v, &chars3('h', 'y', 'a'), &chars2('ひ', 'ゃ'));
    let v = replace_chars(&v, &chars3('h', 'y', 'u'), &chars2('ひ', 'ゅ'));
    let v = replace_chars(&v, &chars3('h', 'y', 'o'), &chars2('ひ', 'ょ'));
    let v = replace_chars(&v, &chars3('m', 'y', 'a'), &chars2('み', 'ゃ'));
    let v = replace_chars(&v, &chars3('m', 'y', 'u'), &chars2('み', 'ゅ'));
    let v = replace_chars(&v, &chars3('m', 'y', 'o'), &chars2('み', 'ょ'));
    let v = replace_chars(&v, &chars3('r', 'y', 'a'), &chars2('り', 'ゃ'));
    let v = replace_chars(&v, &chars3('r', 'y', 'u'), &chars2('り', 'ゅ'));
    let v = replace_chars(&v, &chars3('r', 'y', 'o'), &chars2('り', 'ょ'));
    let v = replace_chars(&v, &chars3('g', 'y', 'a'), &chars2('ぎ', 'ゃ'));
    let v = replace_chars(&v, &chars3('g', 'y', 'u'), &chars2('ぎ', 'ゅ'));
    let v = replace_chars(&v, &chars3('g', 'y', 'o'), &chars2('ぎ', 'ょ'));
    let v = replace_chars(&v, &chars2('j', 'a'), &chars2('じ', 'ゃ'));
    let v = replace_chars(&v, &chars2('j', 'u'), &chars2('じ', 'ゅ'));
    let v = replace_chars(&v, &chars2('j', 'o'), &chars2('じ', 'ょ'));
    let v = replace_chars(&v, &chars3('b', 'y', 'a'), &chars2('び', 'ゃ'));
    let v = replace_chars(&v, &chars3('b', 'y', 'u'), &chars2('び', 'ゅ'));
    let v = replace_chars(&v, &chars3('b', 'y', 'o'), &chars2('び', 'ょ'));
    let v = replace_chars(&v, &chars3('p', 'y', 'a'), &chars2('ぴ', 'ゃ'));
    let v = replace_chars(&v, &chars3('p', 'y', 'u'), &chars2('ぴ', 'ゅ'));
    let v = replace_chars(&v, &chars3('p', 'y', 'o'), &chars2('ぴ', 'ょ'));
    v
}

/// Every pattern of this stage starts with a Latin letter, so
/// letter-free text is left unchanged.
proof fn lemma_youon_unchanged(s: Seq<char>)
    requires
        latin_free(s),
    ensures
        youon_applied(s) == s,
{
    lemma_replaced_absent(s, seq!['k', 'y', 'a'], seq!['き', 'ゃ']);
    lemma_replaced_absent(s, seq!['k', 'y', 'u'], seq!['き', 'ゅ']);
    lemma_replaced_absent(s, seq!['k', 'y', 'o'], seq!['き', 'ょ']);
    lemma_replaced_absent(s, seq!['s', 'h', 'a'], seq!['し', 'ゃ']);
    lemma_replaced_absent(s, seq!['s', 'h', 'u'], seq!['し', 'ゅ']);
    lemma_replaced_absent(s, seq!['s', 'h', 'o'], seq!['し', 'ょ']);
    lemma_replaced_absent(s, seq!['c', 'h', 'a'], seq!['ち', 'ゃ']);
    lemma_replaced_absent(s, seq!['c', 'h', 'u'], seq!['ち', 'ゅ']);
    lemma_replaced_absent(s, seq!['c', 'h', 'o'], seq!['ち', 'ょ']);
    lemma_replaced_absent(s, seq!['n', 'y', 'a'], seq!['に', 'ゃ']);
    lemma_replaced_absent(s, seq!['n', 'y', 'u'], seq!['に', 'ゅ']);
    lemma_replaced_absent(s, seq!['n', 'y', 'o'], seq!['に', 'ょ']);
    lemma_replaced_absent(s, seq!['h', 'y', 'a'], seq!['ひ', 'ゃ']);
    lemma_replaced_absent(s, seq!['h', 'y', 'u'], seq!['ひ', 'ゅ']);
    lemma_replaced_absent(s, seq!['h', 'y', 'o'], seq!['ひ', 'ょ']);
    lemma_replaced_absent(s, seq!['m', 'y', 'a'], seq!['み', 'ゃ']);
    lemma_replaced_absent(s, seq!['m', 'y', 'u'], seq!['み', 'ゅ']);
    lemma_replaced_absent(s, seq!['m', 'y', 'o'], seq!['み', 'ょ']);
    lemma_replaced_absent(s, seq!['r', 'y', 'a'], seq!['り', 'ゃ']);
    lemma_replaced_absent(s, seq!['r', 'y', 'u'], seq!['り', 'ゅ']);
    lemma_replaced_absent(s, seq!['r', 'y', 'o'], seq!['り', 'ょ']);
    lemma_replaced_absent(s, seq!['g', 'y', 'a'], seq!['ぎ', 'ゃ']);
    lemma_replaced_absent(s, seq!['g', 'y', 'u'], seq!['ぎ', 'ゅ']);
    lemma_replaced_absent(s, seq!['g', 'y', 'o'], seq!['ぎ', 'ょ']);
    lemma_replaced_absent(s, seq!['j', 'a'], seq!['じ', 'ゃ']);
    lemma_replaced_absent(s, seq!['j', 'u'], seq!['じ', 'ゅ']);
    lemma_replaced_absent(s, seq!['j', 'o'], seq!['じ', 'ょ']);
    lemma_replaced_absent(s, seq!['b', 'y', 'a'], seq!['び', 'ゃ']);
    lemma_replaced_absent(s, seq!['b', 'y', 'u'], seq!['び', 'ゅ']);
    lemma_replaced_absent(s, seq!['b', 'y', 'o'], seq!['び', 'ょ']);
    lemma_replaced_absent(s, seq!['p', 'y', 'a'], seq!['ぴ', 'ゃ']);
    lemma_replaced_absent(s, seq!['p', 'y', 'u'], seq!['ぴ', 'ゅ']);
    lemma_replaced_absent(s, seq!['p', 'y', 'o'], seq!['ぴ', 'ょ']);
}

/// The plain syllable substitutions, in table order.
pub open spec fn basic_applied(s: Seq<char>) -> Seq<char> {
    let s = replaced(s, seq!['k', 'a'], seq!['か']);
    let s = replaced(s, seq!['k', 'i'], seq!['き']);
    let s = replaced(s, seq!['k', 'u'], seq!['く']);
    let s = replaced(s, seq!['k', 'e'], seq!['け']);
    let s = replaced(s, seq!['k', 'o'], seq!['こ']);
    let s = replaced(s, seq!['g', 'a'], seq!['が']);
    let s = replaced(s, seq!['g', 'i'], seq!['ぎ']);
    let s = replaced(s, seq!['g', 'u'], seq!['ぐ']);
    let s = replaced(s, seq!['g', 'e'], seq!['げ']);
    let s = replaced(s, seq!['g', 'o'], seq!['ご']);
    let s = replaced(s, seq!['s', 'a'], seq!['さ']);
    let s = replaced(s, seq!['s', 'h', 'i'], seq!['し']);
    let s = replaced(s, seq!['s', 'u'], seq!['す']);
    let s = replaced(s, seq!['s', 'e'], seq!['せ']);
    let s = replaced(s, seq!['s', 'o'], seq!['そ']);
    let s = replaced(s, seq!['z', 'a'], seq!['ざ']);
    let s = replaced(s, seq!['j', 'i'], seq!['じ']);
    let s = replaced(s, seq!['z', 'u'], seq!['ず']);
    let s = replaced(s, seq!['z', 'e'], seq!['ぜ']);
    let s = replaced(s, seq!['z', 'o'], seq!['ぞ']);
    let s = replaced(s, seq!['t', 'a'], seq!['た']);
    let s = replaced(s, seq!['c', 'h', 'i'], seq!['ち']);
    let s = replaced(s, seq!['t', 's', 'u'], seq!['つ']);
    let s = replaced(s, seq!['t', 'e'], seq!['て']);
    let s = replaced(s, seq!['t', 'o'], seq!['と']);
    let s = replaced(s, seq!['d', 'a'], seq!['だ']);
    let s = replaced(s, seq!['d', 'i'], seq!['ぢ']);
    let s = replaced(s, seq!['d', 'u'], seq!['づ']);
    let s = replaced(s, seq!['d', 'e'], seq!['で']);
    let s = replaced(s, seq!['d', 'o'], seq!['ど']);
    let s = replaced(s, seq!['n', 'a'], seq!['な']);
    let s = replaced(s, seq!['n', 'i'], seq!['に']);
    let s = replaced(s, seq!['n', 'u'], seq!['ぬ']);
    let s = replaced(s, seq!['n', 'e'], seq!['ね']);
    let s = replaced(s, seq!['n', 'o'], seq!['の']);
    let s = replaced(s, seq!['h', 'a'], seq!['は']);
    let s = replaced(s, seq!['h', 'i'], seq!['ひ']);
    let s = replaced(s, seq!['f', 'u'], seq!['ふ']);
    let s = replaced(s, seq!['h', 'e'], seq!['へ']);
    let s = replaced(s, seq!['h', 'o'], seq!['ほ']);
    let s = replaced(s, seq!['b', 'a'], seq!['ば']);
    let s = replaced(s, seq!['b', 'i'], seq!['び']);
    let s = replaced(s, seq!['b', 'u'], seq!['ぶ']);
    let s = replaced(s, seq!['b', 'e'], seq!['べ']);
    let s = replaced(s, seq!['b', 'o'], seq!['ぼ']);
    let s = replaced(s, seq!['p', 'a'], seq!['ぱ']);
    let s = replaced(s, seq!['p', 'i'], seq!['ぴ']);
    let s = replaced(s, seq!['p', 'u'], seq!['ぷ']);
    let s = replaced(s, seq!['p', 'e'], seq!['ぺ']);
    let s = replaced(s, seq!['p', 'o'], seq!['ぽ']);
    let s = replaced(s, seq!['m', 'a'], seq!['ま']);
    let s = replaced(s, seq!['m', 'i'], seq!['み']);
    let s = replaced(s, seq!['m', 'u'], seq!['む']);
    let s = replaced(s, seq!['m', 'e'], seq!['め']);
    let s = replaced(s, seq!['m', 'o'], seq!['も']);
    let s = replaced(s, seq!['y', 'a'], seq!['や']);
    let s = replaced(s, seq!['y', 'u'], seq!['ゆ']);
    let s = replaced(s, seq!['y', 'o'], seq!['よ']);
    let s = replaced(s, seq!['r', 'a'], seq!['ら']);
    let s = replaced(s, seq!['r', 'i'], seq!['り']);
    let s = replaced(s, seq!['r', 'u'], seq!['る']);
    let s = replaced(s, seq!['r', 'e'], seq!['れ']);
    let s = replaced(s, seq!['r', 'o'], seq!['ろ']);
    let s = replaced(s, seq!['w', 'a'], seq!['わ']);
    let s = replaced(s, seq!['w', 'o'], seq!['を']);
    let s = replaced(s, seq!['n', 'n'], seq!['ん']);
    let s = replaced(s, seq!['n'], seq!['ん']);
    s
}

/// Substitutes the plain syllables.
fn apply_basic(v: Vec<char>) -> (r: Vec<char>)
    ensures
        r@ == basic_applied(v@),
{
    let v = v;
    let v = replace_chars(&v, &chars2('k', 'a'), &chars1('か'));
    let v = replace_chars(&v, &chars2('k', 'i'), &chars1('き'));
    let v = replace_chars(&v, &chars2('k', 'u'), &chars1('く'));
    let v = replace_chars(&v, &chars2('k', 'e'), &chars1('け'));
    let v = replace_chars(&v, &chars2('k', 'o'), &chars1('こ'));
    let v = replace_chars(&v, &chars2('g', 'a'), &chars1('が'));
    let v = replace_chars(&v, &chars2('g', 'i'), &chars1('ぎ'));
    let v = replace_chars(&v, &chars2('g', 'u'), &chars1('ぐ'));
    let v = replace_chars(&v, &chars2('g', 'e'), &chars1('げ'));
    let v = replace_chars(&v, &chars2('g', 'o'), &chars1('ご'));
    let v = replace_chars(&v, &chars2('s', 'a'), &chars1('さ'));
    let v = replace_chars(&v, &chars3('s', 'h', 'i'), &chars1('し'));
    let v = replace_chars(&v, &chars2('s', 'u'), &chars1('す'));
    let v = replace_chars(&v, &chars2('s', 'e'), &chars1('せ'));
    let v = replace_chars(&v, &chars2('s', 'o'), &chars1('そ'));
    let v = replace_chars(&v, &chars2('z', 'a'), &chars1('ざ'));
    let v = replace_chars(&v, &chars2('j', 'i'), &chars1('じ'));
    let v = replace_chars(&v, &chars2('z', 'u'), &chars1('ず'));
    let v = replace_chars(&v, &chars2('z', 'e'), &chars1('ぜ'));
    let v = replace_chars(&v, &chars2('z', 'o'), &chars1('ぞ'));
    let v = replace_chars(&v, &chars2('t', 'a'), &chars1('た'));
    let v = replace_chars(&v, &chars3('c', 'h', 'i'), &chars1('ち'));
    let v = replace_chars(&v, &chars3('t', 's', 'u'), &chars1('つ'));
    let v = replace_chars(&v, &chars2('t', 'e'), &chars1('て'));
    let v = replace_chars(&v, &chars2('t', 'o'), &chars1('と'));
    let v = replace_chars(&v, &chars2('d', 'a'), &chars1('だ'));
    let v = replace_chars(&v, &chars2('d', 'i'), &chars1('ぢ'));
    let v = replace_chars(&v, &chars2('d', 'u'), &chars1('づ'));
    let v = replace_chars(&v, &chars2('d', 'e'), &chars1('で'));
    let v = replace_chars(&v, &chars2('d', 'o'), &chars1('ど'));
    let v = replace_chars(&v, &chars2('n', 'a'), &chars1('な'));
    let v = replace_chars(&v, &chars2('n', 'i'), &chars1('に'));
    let v = replace_chars(&v, &chars2('n', 'u'), &chars1('ぬ'));
    let v = replace_chars(&v, &chars2('n', 'e'), &chars1('ね'));
    let v = replace_chars(&v, &chars2('n', 'o'), &chars1('の'));
    let v = replace_chars(&v, &chars2('h', 'a'), &chars1('は'));
    let v = replace_chars(&v, &chars2('h', 'i'), &chars1('ひ'));
    let v = replace_chars(&v, &chars2('f', 'u'), &chars1('ふ'));
    let v = replace_chars(&v, &chars2('h', 'e'), &chars1('へ'));
    let v = replace_chars(&v, &chars2('h', 'o'), &chars1('ほ'));
    let v = replace_chars(&v, &chars2('b', 'a'), &chars1('ば'));
    let v = replace_chars(&v, &chars2('b', 'i'), &chars1('び'));
    let v = replace_chars(&v, &chars2('b', 'u'), &chars1('ぶ'));
    let v = replace_chars(&v, &chars2('b', 'e'), &chars1('べ'));
    let v = replace_chars(&v, &chars2('b', 'o'), &chars1('ぼ'));
    let v = replace_chars(&v, &chars2('p', 'a'), &chars1('ぱ'));
    let v = replace_chars(&v, &chars2('p', 'i'), &chars1('ぴ'));
    let v = replace_chars(&v, &chars2('p', 'u'), &chars1('ぷ'));
    let v = replace_chars(&v, &chars2('p', 'e'), &chars1('ぺ'));
    let v = replace_chars(&v, &chars2('p', 'o'), &chars1('ぽ'));
    let v = replace_chars(&v, &chars2('m', 'a'), &chars1('ま'));
    let v = replace_chars(&v, &chars2('m', 'i'), &chars1('み'));
    let v = replace_chars(&v, &chars2('m', 'u'), &chars1('む'));
    let v = replace_chars(&v, &chars2('m', 'e'), &chars1('め'));
    let v = replace_chars(&v, &chars2('m', 'o'), &chars1('も'));
    let v = replace_chars(&v, &chars2('y', 'a'), &chars1('や'));
    let v = replace_chars(&v, &chars2('y', 'u'), &chars1('ゆ'));
    let v = replace_chars(&v, &chars2('y', 'o'), &chars1('よ'));
    let v = replace_chars(&v, &chars2('r', 'a'), &chars1('ら'));
    let v = replace_chars(&v, &chars2('r', 'i'), &chars1('り'));
    let v = replace_chars(&v, &chars2('r', 'u'), &chars1('る'));
    let v = replace_chars(&v, &chars2('r', 'e'), &chars1('れ'));
    let v = replace_chars(&v, &chars2('r', 'o'), &chars1('ろ'));
    let v = replace_chars(&v, &chars2('w', 'a'), &chars1('わ'));
    let v = replace_chars(&v, &chars2('w', 'o'), &chars1('を'));
    let v = replace_chars(&v, &chars2('n', 'n'), &chars1('ん'));
    let v = replace_chars(&v, &chars1('n'), &chars1('ん'));
    v
}

/// Every pattern of this stage starts with a Latin letter, so
/// letter-free text is left unchanged.
proof fn lemma_basic_unchanged(s: Seq<char>)
    requires
        latin_free(s),
    ensures
        basic_applied(s) == s,
{
    lemma_replaced_absent(s, seq!['k', 'a'], seq!['か']);
    lemma_replaced_absent(s, seq!['k', 'i'], seq!['き']);
    lemma_replaced_absent(s, seq!['k', 'u'], seq!['く']);
    lemma_replaced_absent(s, seq!['k', 'e'], seq!['け']);
    lemma_replaced_absent(s, seq!['k', 'o'], seq!['こ']);
    lemma_replaced_absent(s, seq!['g', 'a'], seq!['が']);
    lemma_replaced_absent(s, seq!['g', 'i'], seq!['ぎ']);
    lemma_replaced_absent(s, seq!['g', 'u'], seq!['ぐ']);
    lemma_replaced_absent(s, seq!['g', 'e'], seq!['げ']);
    lemma_replaced_absent(s, seq!['g', 'o'], seq!['ご']);
    lemma_replaced_absent(s, seq!['s', 'a'], seq!['さ']);
    lemma_replaced_absent(s, seq!['s', 'h', 'i'], seq!['し']);
    lemma_replaced_absent(s, seq!['s', 'u'], seq!['す']);
    lemma_replaced_absent(s, seq!['s', 'e'], seq!['せ']);
    lemma_replaced_absent(s, seq!['s', 'o'], seq!['そ']);
    lemma_replaced_absent(s, seq!['z', 'a'], seq!['ざ']);
    lemma_replaced_absent(s, seq!['j', 'i'], seq!['じ']);
    lemma_replaced_absent(s, seq!['z', 'u'], seq!['ず']);
    lemma_replaced_absent(s, seq!['z', 'e'], seq!['ぜ']);
    lemma_replaced_absent(s, seq!['z', 'o'], seq!['ぞ']);
    lemma_replaced_absent(s, seq!['t', 'a'], seq!['た']);
    lemma_replaced_absent(s, seq!['c', 'h', 'i'], seq!['ち']);
    lemma_replaced_absent(s, seq!['t', 's', 'u'], seq!['つ']);
    lemma_replaced_absent(s, seq!['t', 'e'], seq!['て']);
    lemma_replaced_absent(s, seq!['t', 'o'], seq!['と']);
    lemma_replaced_absent(s, seq!['d', 'a'], seq!['だ']);
    lemma_replaced_absent(s, seq!['d', 'i'], seq!['ぢ']);
    lemma_replaced_absent(s, seq!['d', 'u'], seq!['づ']);
    lemma_replaced_absent(s, seq!['d', 'e'], seq!['で']);
    lemma_replaced_absent(s, seq!['d', 'o'], seq!['ど']);
    lemma_replaced_absent(s, seq!['n', 'a'], seq!['な']);
    lemma_replaced_absent(s, seq!['n', 'i'], seq!['に']);
    lemma_replaced_absent(s, seq!['n', 'u'], seq!['ぬ']);
    lemma_replaced_absent(s, seq!['n', 'e'], seq!['ね']);
    lemma_replaced_absent(s, seq!['n', 'o'], seq!['の']);
    lemma_replaced_absent(s, seq!['h', 'a'], seq!['は']);
    lemma_replaced_absent(s, seq!['h', 'i'], seq!['ひ']);
    lemma_replaced_absent(s, seq!['f', 'u'], seq!['ふ']);
    lemma_replaced_absent(s, seq!['h', 'e'], seq!['へ']);
    lemma_replaced_absent(s, seq!['h', 'o'], seq!['ほ']);
    lemma_replaced_absent(s, seq!['b', 'a'], seq!['ば']);
    lemma_replaced_absent(s, seq!['b', 'i'], seq!['び']);
    lemma_replaced_absent(s, seq!['b', 'u'], seq!['ぶ']);
    lemma_replaced_absent(s, seq!['b', 'e'], seq!['べ']);
    lemma_replaced_absent(s, seq!['b', 'o'], seq!['ぼ']);
    lemma_replaced_absent(s, seq!['p', 'a'], seq!['ぱ']);
    lemma_replaced_absent(s, seq!['p', 'i'], seq!['ぴ']);
    lemma_replaced_absent(s, seq!['p', 'u'], seq!['ぷ']);
    lemma_replaced_absent(s, seq!['p', 'e'], seq!['ぺ']);
    lemma_replaced_absent(s, seq!['p', 'o'], seq!['ぽ']);
    lemma_replaced_absent(s, seq!['m', 'a'], seq!['ま']);
    lemma_replaced_absent(s, seq!['m', 'i'], seq!['み']);
    lemma_replaced_absent(s, seq!['m', 'u'], seq!['む']);
    lemma_replaced_absent(s, seq!['m', 'e'], seq!['め']);
    lemma_replaced_absent(s, seq!['m', 'o'], seq!['も']);
    lemma_replaced_absent(s, seq!['y', 'a'], seq!['や']);
    lemma_replaced_absent(s, seq!['y', 'u'], seq!['ゆ']);
    lemma_replaced_absent(s, seq!['y', 'o'], seq!['よ']);
    lemma_replaced_absent(s, seq!['r', 'a'], seq!['ら']);
    lemma_replaced_absent(s, seq!['r', 'i'], seq!['り']);
    lemma_replaced_absent(s, seq!['r', 'u'], seq!['る']);
    lemma_replaced_absent(s, seq!['r', 'e'], seq!['れ']);
    lemma_replaced_absent(s, seq!['r', 'o'], seq!['ろ']);
    lemma_replaced_absent(s, seq!['w', 'a'], seq!['わ']);
    lemma_replaced_absent(s, seq!['w', 'o'], seq!['を']);
    lemma_replaced_absent(s, seq!['n', 'n'], seq!['ん']);
    lemma_replaced_absent(s, seq!['n'], seq!['ん']);
}

/// The bare vowel substitutions, applied after every compound syllable.
pub open spec fn vowels_applied(s: Seq<char>) -> Seq<char> {
    let s = replaced(s, seq!['a'], seq!['あ']);
    let s = replaced(s, seq!['i'], seq!['い']);
    let s = replaced(s, seq!['u'], seq!['う']);
    let s = replaced(s, seq!['e'], seq!['え']);
    let s = replaced(s, seq!['o'], seq!['お']);
    s
}

/// Substitutes the bare vowels.
fn apply_vowels(v: Vec<char>) -> (r: Vec<char>)
    ensures
        r@ == vowels_applied(v@),
{
    let v = v;
    let v = replace_chars(&v, &chars1('a'), &chars1('あ'));
    let v = replace_chars(&v, &chars1('i'), &chars1('い'));
    let v = replace_chars(&v, &chars1('u'), &chars1('う'));
    let v = replace_chars(&v, &chars1('e'), &chars1('え'));
    let v = replace_chars(&v, &chars1('o'), &chars1('お'));
    v
}

/// Every pattern of this stage starts with a Latin letter, so
/// letter-free text is left unchanged.
proof fn lemma_vowels_unchanged(s: Seq<char>)
    requires
        latin_free(s),
    ensures
        vowels_applied(s) == s,
{
    lemma_replaced_absent(s, seq!['a'], seq!['あ']);
    lemma_replaced_absent(s, seq!['i'], seq!['い']);
    lemma_replaced_absent(s, seq!['u'], seq!['う']);
    lemma_replaced_absent(s, seq!['e'], seq!['え']);
    lemma_replaced_absent(s, seq!['o'], seq!['お']);
}

/// The long-vowel rewrites.
pub open spec fn long_vowels_applied(s: Seq<char>) -> Seq<char> {
    let s = replaced(s, seq!['o', 'u'], seq!['お', 'う']);
    let s = replaced(s, seq!['o', 'o'], seq!['お', 'う']);
    let s = replaced(s, seq!['e', 'i'], seq!['え', 'い']);
    s
}

/// Applies the long-vowel rewrites.
fn apply_long_vowels(v: Vec<char>) -> (r: Vec<char>)
    ensures
        r@ == long_vowels_applied(v@),
{
    let v = v;
    let v = replace_chars(&v, &chars2('o', 'u'), &chars2('お', 'う'));
    let v = replace_chars(&v, &chars2('o', 'o'), &chars2('お', 'う'));
    let v = replace_chars(&v, &chars2('e', 'i'), &chars2('え', 'い'));
    v
}

/// Every pattern of this stage starts with a Latin letter, so
/// letter-free text is left unchanged.
proof fn lemma_long_vowels_unchanged(s: Seq<char>)
    requires
        latin_free(s),
    ensures
        long_vowels_applied(s) == s,
{
    lemma_replaced_absent(s, seq!['o', 'u'], seq!['お', 'う']);
    lemma_replaced_absent(s, seq!['o', 'o'], seq!['お', 'う']);
    lemma_replaced_absent(s, seq!['e', 'i'], seq!['え', 'い']);
}


/// The full transliteration pipeline on a character sequence.
pub open spec fn transliterated(s: Seq<char>) -> Seq<char> {
    let s = lowered(s);
    let s = replaced(s, seq!['n', '\''], seq!['ん']);
    let s = combos_applied(s);
    let s = collapsed(s);
    let s = nasals_applied(s);
    let s = youon_applied(s);
    let s = basic_applied(s);
    let s = vowels_applied(s);
    long_vowels_applied(s)
}

/// Runs the full transliteration pipeline on a character sequence.
pub fn transliterate_chars(input: &Vec<char>) -> (r: Vec<char>)
    ensures
        r@ == transliterated(input@),
{
    let v = lower_chars(input);
    let v = replace_chars(&v, &chars2('n', '\''), &chars1('ん'));
    let v = apply_combos(v);
    let v = collapse_chars(&v);
    let v = apply_nasals(v);
    let v = apply_youon(v);
    let v = apply_basic(v);
    let v = apply_vowels(v);
    let v = apply_long_vowels(v);
    v
}

/// Converts romanized phonetic input to the syllabary.  The conversion is
/// total and deterministic: characters the tables do not map pass through
/// unchanged.
pub fn romaji_to_hiragana(input: &str) -> (r: String)
    ensures
        r@ == transliterated(input@),
{
    let v = chars_of(input);
    let v = transliterate_chars(&v);
    string_of(&v)
}

/// Law: the transliteration engine leaves syllabary text unchanged.  Every
/// pattern in every table starts with a Latin letter, so text that contains
/// no Latin letter - in particular the engine's own output on input made
/// only of mapped syllables - is a fixed point of the engine.
pub proof fn lemma_transliterated_fixes_syllabary(s: Seq<char>)
    requires
        latin_free(s),
    ensures
        transliterated(s) == s,
{
    lemma_lowered_unchanged(s);
    lemma_replaced_absent(s, seq!['n', '\''], seq!['ん']);
    lemma_combos_unchanged(s);
    lemma_collapsed_unchanged(s);
    lemma_nasals_unchanged(s);
    lemma_youon_unchanged(s);
    lemma_basic_unchanged(s);
    lemma_vowels_unchanged(s);
    lemma_long_vowels_unchanged(s);
}

/// Law: the transliteration engine is idempotent on syllabary text; running
/// it again on letter-free text returns that text unchanged.
pub proof fn lemma_transliterated_idempotent_on_syllabary(s: Seq<char>)
    requires
        latin_free(s),
    ensures
        transliterated(transliterated(s)) == transliterated(s),
{
    lemma_transliterated_fixes_syllabary(s);
}

} // verus!
