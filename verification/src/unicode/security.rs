//! Security analysis of Unicode text.
//!
//! Detects characters that have historically been used to spoof or
//! obfuscate text: invisible and zero-width characters, bidirectional
//! control characters, confusable look-alikes of Latin letters, and
//! suspicious mixtures of writing scripts.  A single left-to-right scan
//! classifies every character, and an additive score maps the findings
//! to a four-level risk classification.

use vstd::prelude::*;
use vstd::string::StrSliceExecFns;
use vstd::utf8::encode_scalar;
use vstd::utf8::encode_utf8;

verus! {

/// Writing-script category of a single character.
///
/// Digits, whitespace and common punctuation are folded into `Latin` so
/// that they never count as a separate script; characters outside every
/// recognized block map to `Other` with their code point, so distinct
/// unrecognized characters stay distinguishable.
#[derive(Debug, Clone, Copy, PartialEq, Eq, Hash, Structural)]
pub enum Script {
    Latin,
    Cyrillic,
    Greek,
    Arabic,
    Hebrew,
    Chinese,
    Japanese,
    Korean,
    Thai,
    Devanagari,
    /// Unrecognized range, tagged with the character's code point
    Other(u32),
}

/// Four-level ordinal risk classification: `Low < Medium < High < Critical`.
#[derive(Debug, Clone, Copy, PartialEq, Eq, PartialOrd, Ord, Structural)]
pub enum RiskLevel {
    /// No security concerns detected
    Low,
    /// Minor concerns, likely benign
    Medium,
    /// Significant security concerns
    High,
    /// Critical security risk
    Critical,
}

/// The fixed allowlist of invisible and zero-width characters.
///
/// This is a closed, hand-maintained set, kept exactly as curated rather
/// than derived from a Unicode property database.
pub open spec fn is_invisible(c: char) -> bool {
    let u = c as u32;
    ||| u == 0x00AD  // soft hyphen
    ||| u == 0x034F  // combining grapheme joiner
    ||| u == 0x061C  // Arabic letter mark
    ||| u == 0x115F  // Hangul choseong filler
    ||| u == 0x1160  // Hangul jungseong filler
    ||| u == 0x17B4  // Khmer vowel inherent AQ
    ||| u == 0x17B5  // Khmer vowel inherent AA
    ||| u == 0x180E  // Mongolian vowel separator
    ||| (0x200B <= u && u <= 0x200F)  // zero-width space family, LRM, RLM
    ||| (0x202A <= u && u <= 0x202E)  // directional embedding and override
    ||| (0x2060 <= u && u <= 0x2064)  // word joiner, invisible operators
    ||| (0x206A <= u && u <= 0x206F)  // shaping and digit-shape controls
    ||| u == 0x3164  // Hangul filler
    ||| u == 0xFEFF  // zero-width no-break space (BOM)
    ||| u == 0xFFA0  // halfwidth Hangul filler
    ||| u == 0x1D159  // musical symbol null notehead
    ||| (0x1D173 <= u && u <= 0x1D17A)  // musical beam, tie, slur, phrase controls
}

/// The fixed set of bidirectional control characters: directional marks,
/// embeddings, overrides and isolates.
///
/// Overlaps with, but is not identical to, the invisible set: the
/// isolates `U+2066..U+2069` are bidirectional-only, while the invisible
/// operators `U+2060..U+2064` and `U+206A..U+206F` are invisible-only.
pub open spec fn is_bidi(c: char) -> bool {
    let u = c as u32;
    ||| u == 0x061C  // Arabic letter mark
    ||| u == 0x200E  // left-to-right mark
    ||| u == 0x200F  // right-to-left mark
    ||| (0x202A <= u && u <= 0x202E)  // embedding, override, pop
    ||| (0x2066 <= u && u <= 0x2069)  // isolates
}

/// A curated sample of characters visually near-identical to Latin
/// letters: a subset of Cyrillic and Greek letters plus the mathematical
/// bold capital letters.
///
/// Deliberately a small demonstrative set, not an exhaustive confusables
/// database.
pub open spec fn is_confusable(c: char) -> bool {
    let u = c as u32;
    // Cyrillic letters that look like Latin ones
    ||| u == 0x0430 || u == 0x0435 || u == 0x043E || u == 0x0440 || u == 0x0441
    ||| u == 0x0443 || u == 0x0445 || u == 0x0410 || u == 0x0412 || u == 0x0415
    ||| u == 0x041A || u == 0x041C || u == 0x041D || u == 0x041E || u == 0x0420
    ||| u == 0x0421 || u == 0x0422 || u == 0x0423 || u == 0x0425
    // Greek lowercase letters alpha through omega, skipping final sigma
    ||| (0x03B1 <= u && u <= 0x03C1)
    ||| (0x03C3 <= u && u <= 0x03C9)
    // Mathematical bold capital A through Z
    ||| (0x1D400 <= u && u <= 0x1D419)
}

/// Digits, whitespace and common punctuation that are folded into the
/// Latin script so they never trigger a mixed-script finding on their own.
pub open spec fn is_common_latin_symbol(c: char) -> bool {
    let u = c as u32;
    ||| (0x30 <= u && u <= 0x39)  // digits
    ||| u == 0x20 || u == 0x09 || u == 0x0A || u == 0x0D  // whitespace
    ||| u == 0x21 || u == 0x3F || u == 0x2E || u == 0x2C || u == 0x3B || u == 0x3A  // ! ? . , ; :
    ||| u == 0x22 || u == 0x27 || u == 0x28 || u == 0x29 || u == 0x5B || u == 0x5D  // " ' ( ) [ ]
    ||| u == 0x7B || u == 0x7D || u == 0x2D || u == 0x5F || u == 0x3D || u == 0x2B  // { } - _ = +
    ||| u == 0x2A || u == 0x2F || u == 0x5C || u == 0x7C || u == 0x40 || u == 0x23  // * / \ | @ #
    ||| u == 0x24 || u == 0x25 || u == 0x5E || u == 0x26 || u == 0x7E || u == 0x60  // $ % ^ & ~ `
}

/// Script classification of one character, by code-point range.
pub open spec fn script_of(c: char) -> Script {
    let u = c as u32;
    if (0x41 <= u && u <= 0x5A) || (0x61 <= u && u <= 0x7A) {
        Script::Latin
    } else if (0x0410 <= u && u <= 0x044F) || u == 0x0401 || u == 0x0451 {
        Script::Cyrillic
    } else if 0x0391 <= u && u <= 0x03C9 {
        Script::Greek
    } else if 0x0600 <= u && u <= 0x06FF {
        Script::Arabic
    } else if 0x0590 <= u && u <= 0x05FF {
        Script::Hebrew
    } else if 0x4E00 <= u && u <= 0x9FFF {
        Script::Chinese
    } else if (0x3040 <= u && u <= 0x309F) || (0x30A0 <= u && u <= 0x30FF) {
        Script::Japanese
    } else if 0xAC00 <= u && u <= 0xD7AF {
        Script::Korean
    } else if 0x0E00 <= u && u <= 0x0E7F {
        Script::Thai
    } else if 0x0900 <= u && u <= 0x097F {
        Script::Devanagari
    } else if is_common_latin_symbol(c) {
        Script::Latin
    } else {
        Script::Other(u)
    }
}

/// Human-readable name of a character, as a sequence of characters.
///
/// A fixed table covering the most common invisible and bidirectional
/// characters; everything else gets a generic label.  Intentionally
/// smaller than the classifier allowlists.
pub open spec fn description_of(c: char) -> Seq<char> {
    let u = c as u32;
    if u == 0x00AD {
        "Soft Hyphen"@
    } else if u == 0x200B {
        "Zero Width Space"@
    } else if u == 0x200C {
        "Zero Width Non-Joiner"@
    } else if u == 0x200D {
        "Zero Width Joiner"@
    } else if u == 0x200E {
        "Left-to-Right Mark"@
    } else if u == 0x200F {
        "Right-to-Left Mark"@
    } else if u == 0x202A {
        "Left-to-Right Embedding"@
    } else if u == 0x202B {
        "Right-to-Left Embedding"@
    } else if u == 0x202C {
        "Pop Directional Formatting"@
    } else if u == 0x202D {
        "Left-to-Right Override"@
    } else if u == 0x202E {
        "Right-to-Left Override"@
    } else if u == 0x2060 {
        "Word Joiner"@
    } else if u == 0xFEFF {
        "Zero Width No-Break Space (BOM)"@
    } else {
        "Unknown Special Character"@
    }
}

/// Get a human-readable description of a character.
pub fn get_char_description(ch: char) -> (r: &'static str)
    ensures
        r@ == description_of(ch),
{
    let u = ch as u32;
    if u == 0x00AD {
        "Soft Hyphen"
    } else if u == 0x200B {
        "Zero Width Space"
    } else if u == 0x200C {
        "Zero Width Non-Joiner"
    } else if u == 0x200D {
        "Zero Width Joiner"
    } else if u == 0x200E {
        "Left-to-Right Mark"
    } else if u == 0x200F {
        "Right-to-Left Mark"
    } else if u == 0x202A {
        "Left-to-Right Embedding"
    } else if u == 0x202B {
        "Right-to-Left Embedding"
    } else if u == 0x202C {
        "Pop Directional Formatting"
    } else if u == 0x202D {
        "Left-to-Right Override"
    } else if u == 0x202E {
        "Right-to-Left Override"
    } else if u == 0x2060 {
        "Word Joiner"
    } else if u == 0xFEFF {
        "Zero Width No-Break Space (BOM)"
    } else {
        "Unknown Special Character"
    }
}

/// Check if a character is invisible or zero-width.
pub fn is_invisible_char(ch: char) -> (r: bool)
    ensures
        r == is_invisible(ch),
{
    let u = ch as u32;
    u == 0x00AD || u == 0x034F || u == 0x061C || u == 0x115F || u == 0x1160
        || u == 0x17B4 || u == 0x17B5 || u == 0x180E
        || (0x200B <= u && u <= 0x200F)
        || (0x202A <= u && u <= 0x202E)
        || (0x2060 <= u && u <= 0x2064)
        || (0x206A <= u && u <= 0x206F)
        || u == 0x3164 || u == 0xFEFF || u == 0xFFA0
        || u == 0x1D159 || (0x1D173 <= u && u <= 0x1D17A)
}

/// Check if a character is a bidirectional control character.
pub fn is_bidi_char(ch: char) -> (r: bool)
    ensures
        r == is_bidi(ch),
{
    let u = ch as u32;
    u == 0x061C || u == 0x200E || u == 0x200F
        || (0x202A <= u && u <= 0x202E)
        || (0x2066 <= u && u <= 0x2069)
}

/// Check if a character is commonly used in confusable attacks.
pub fn is_confusable_char(ch: char) -> (r: bool)
    ensures
        r == is_confusable(ch),
{
    let u = ch as u32;
    u == 0x0430 || u == 0x0435 || u == 0x043E || u == 0x0440 || u == 0x0441
        || u == 0x0443 || u == 0x0445 || u == 0x0410 || u == 0x0412 || u == 0x0415
        || u == 0x041A || u == 0x041C || u == 0x041D || u == 0x041E || u == 0x0420
        || u == 0x0421 || u == 0x0422 || u == 0x0423 || u == 0x0425
        || (0x03B1 <= u && u <= 0x03C1)
        || (0x03C3 <= u && u <= 0x03C9)
        || (0x1D400 <= u && u <= 0x1D419)
}

/// Get the script category for a character.
pub fn get_script(ch: char) -> (s: Script)
    ensures
        s == script_of(ch),
{
    let u = ch as u32;
    if (0x41 <= u && u <= 0x5A) || (0x61 <= u && u <= 0x7A) {
        Script::Latin
    } else if (0x0410 <= u && u <= 0x044F) || u == 0x0401 || u == 0x0451 {
        Script::Cyrillic
    } else if 0x0391 <= u && u <= 0x03C9 {
        Script::Greek
    } else if 0x0600 <= u && u <= 0x06FF {
        Script::Arabic
    } else if 0x0590 <= u && u <= 0x05FF {
        Script::Hebrew
    } else if 0x4E00 <= u && u <= 0x9FFF {
        Script::Chinese
    } else if (0x3040 <= u && u <= 0x309F) || (0x30A0 <= u && u <= 0x30FF) {
        Script::Japanese
    } else if 0xAC00 <= u && u <= 0xD7AF {
        Script::Korean
    } else if 0x0E00 <= u && u <= 0x0E7F {
        Script::Thai
    } else if 0x0900 <= u && u <= 0x097F {
        Script::Devanagari
    } else if (0x30 <= u && u <= 0x39)
        || u == 0x20 || u == 0x09 || u == 0x0A || u == 0x0D
        || u == 0x21 || u == 0x3F || u == 0x2E || u == 0x2C || u == 0x3B || u == 0x3A
        || u == 0x22 || u == 0x27 || u == 0x28 || u == 0x29 || u == 0x5B || u == 0x5D
        || u == 0x7B || u == 0x7D || u == 0x2D || u == 0x5F || u == 0x3D || u == 0x2B
        || u == 0x2A || u == 0x2F || u == 0x5C || u == 0x7C || u == 0x40 || u == 0x23
        || u == 0x24 || u == 0x25 || u == 0x5E || u == 0x26 || u == 0x7E || u == 0x60 {
        Script::Latin
    } else {
        Script::Other(u)
    }
}

/// Number of bytes the UTF-8 encoding of one character occupies.
pub open spec fn width_of(c: char) -> int {
    encode_scalar(c as u32).len() as int
}

/// Number of bytes the UTF-8 encoding of a character sequence occupies.
/// Positions reported by the analyzer are prefix values of this measure.
pub open spec fn byte_len(s: Seq<char>) -> int {
    encode_utf8(s).len() as int
}

/// Some character of `s` satisfies `p`.
pub open spec fn has_any(s: Seq<char>, p: spec_fn(char) -> bool) -> bool {
    exists|i: int| 0 <= i < s.len() && p(#[trigger] s[i])
}

/// The findings for predicate `p`: one `(byte offset, character)` pair per
/// matching character, in scan order.
pub open spec fn flagged(s: Seq<char>, p: spec_fn(char) -> bool) -> Seq<(int, char)>
    decreases s.len(),
{
    if s.len() == 0 {
        Seq::empty()
    } else if p(s.last()) {
        flagged(s.drop_last(), p).push((byte_len(s.drop_last()), s.last()))
    } else {
        flagged(s.drop_last(), p)
    }
}

/// The analyzer's invisible-character findings for a text.
pub open spec fn invisible_findings(s: Seq<char>) -> Seq<(int, char)> {
    flagged(s, |c: char| is_invisible(c))
}

/// The analyzer's bidirectional-character findings for a text.
pub open spec fn bidi_findings(s: Seq<char>) -> Seq<(int, char)> {
    flagged(s, |c: char| is_bidi(c))
}

/// The distinct scripts of `s`, in order of first appearance.
pub open spec fn script_list(s: Seq<char>) -> Seq<Script>
    decreases s.len(),
{
    if s.len() == 0 {
        Seq::empty()
    } else if script_list(s.drop_last()).contains(script_of(s.last())) {
        script_list(s.drop_last())
    } else {
        script_list(s.drop_last()).push(script_of(s.last()))
    }
}

/// Mixed-script text: some character's script is neither Latin nor the
/// script of every other character.  Equivalently, either two distinct
/// non-Latin scripts occur, or a non-Latin script occurs together with
/// Latin.
pub open spec fn is_mixed_script(s: Seq<char>) -> bool {
    exists|i: int, j: int|
        0 <= i < s.len() && 0 <= j < s.len() && #[trigger] script_of(s[i]) != Script::Latin
            && script_of(s[i]) != #[trigger] script_of(s[j])
}

/// The additive risk score of a text: weighted presence of each finding
/// category, plus volume bonuses for repeated invisible or bidirectional
/// characters.
pub open spec fn risk_score(s: Seq<char>) -> int {
    (if has_any(s, |c: char| is_invisible(c)) {
        3int
    } else {
        0int
    }) + (if has_any(s, |c: char| is_bidi(c)) {
        4int
    } else {
        0int
    }) + (if is_mixed_script(s) {
        2int
    } else {
        0int
    }) + (if has_any(s, |c: char| is_confusable(c)) {
        2int
    } else {
        0int
    }) + (if flagged(s, |c: char| is_invisible(c)).len() > 3 {
        2int
    } else {
        0int
    }) + (if flagged(s, |c: char| is_bidi(c)).len() > 1 {
        2int
    } else {
        0int
    })
}

/// Bucketing of an additive score into the four risk levels.
pub open spec fn level_for_score(score: int) -> RiskLevel {
    if score == 0 {
        RiskLevel::Low
    } else if score <= 3 {
        RiskLevel::Medium
    } else if score <= 6 {
        RiskLevel::High
    } else {
        RiskLevel::Critical
    }
}

/// The risk level the analyzer assigns to a text.
pub open spec fn risk_level_of(s: Seq<char>) -> RiskLevel {
    level_for_score(risk_score(s))
}

/// How many entries of a script list are not Latin.
pub open spec fn count_non_latin(l: Seq<Script>) -> int
    decreases l.len(),
{
    if l.len() == 0 {
        0
    } else {
        count_non_latin(l.drop_last()) + if l.last() != Script::Latin {
            1int
        } else {
            0int
        }
    }
}

proof fn lemma_byte_len_push(t: Seq<char>, c: char)
    ensures
        byte_len(t.push(c)) == byte_len(t) + width_of(c),
    decreases t.len(),
{
    if t.len() == 0 {
        assert(t.push(c).drop_first() =~= Seq::<char>::empty());
        assert(t =~= Seq::<char>::empty());
    } else {
        assert(t.push(c).drop_first() =~= t.drop_first().push(c));
        lemma_byte_len_push(t.drop_first(), c);
    }
}

proof fn lemma_byte_len_take_step(s: Seq<char>, i: int)
    requires
        0 <= i < s.len(),
    ensures
        byte_len(s.take(i + 1)) == byte_len(s.take(i)) + width_of(s[i]),
{
    assert(s.take(i + 1) =~= s.take(i).push(s[i]));
    lemma_byte_len_push(s.take(i), s[i]);
}

proof fn lemma_byte_len_prefix_le(s: Seq<char>, i: int)
    requires
        0 <= i <= s.len(),
    ensures
        byte_len(s.take(i)) <= byte_len(s),
    decreases s.len() - i,
{
    if i == s.len() {
        assert(s.take(i) =~= s);
    } else {
        lemma_byte_len_take_step(s, i);
        lemma_byte_len_prefix_le(s, i + 1);
    }
}

proof fn lemma_has_any_step(s: Seq<char>, i: int, p: spec_fn(char) -> bool)
    requires
        0 <= i < s.len(),
    ensures
        has_any(s.take(i + 1), p) == (has_any(s.take(i), p) || p(s[i])),
{
    let t0 = s.take(i);
    let t1 = s.take(i + 1);
    if has_any(t1, p) {
        let k = choose|k: int| 0 <= k < t1.len() && p(#[trigger] t1[k]);
        if k < i {
            assert(t0[k] == t1[k]);
            assert(has_any(t0, p));
        } else {
            assert(t1[k] == s[i]);
        }
    }
    if has_any(t0, p) {
        let k = choose|k: int| 0 <= k < t0.len() && p(#[trigger] t0[k]);
        assert(t1[k] == t0[k]);
        assert(has_any(t1, p));
    }
    if p(s[i]) {
        assert(t1[i] == s[i]);
        assert(has_any(t1, p));
    }
}

proof fn lemma_flagged_step(s: Seq<char>, i: int, p: spec_fn(char) -> bool)
    requires
        0 <= i < s.len(),
    ensures
        flagged(s.take(i + 1), p) == (if p(s[i]) {
            flagged(s.take(i), p).push((byte_len(s.take(i)), s[i]))
        } else {
            flagged(s.take(i), p)
        }),
{
    assert(s.take(i + 1).drop_last() =~= s.take(i));
    assert(s.take(i + 1).last() == s[i]);
}

proof fn lemma_script_list_step(s: Seq<char>, i: int)
    requires
        0 <= i < s.len(),
    ensures
        script_list(s.take(i + 1)) == (if script_list(s.take(i)).contains(script_of(s[i])) {
            script_list(s.take(i))
        } else {
            script_list(s.take(i)).push(script_of(s[i]))
        }),
{
    assert(s.take(i + 1).drop_last() =~= s.take(i));
    assert(s.take(i + 1).last() == s[i]);
}

proof fn lemma_contains_push(l: Seq<Script>, c: Script, x: Script)
    ensures
        l.push(c).contains(x) == (l.contains(x) || c == x),
{
    if l.contains(x) {
        let k = choose|k: int| 0 <= k < l.len() && l[k] == x;
        assert(l.push(c)[k] == x);
    }
    if c == x {
        assert(l.push(c)[l.len() as int] == x);
    }
    if l.push(c).contains(x) {
        let k = choose|k: int| 0 <= k < l.push(c).len() && l.push(c)[k] == x;
        if k < l.len() {
            assert(l[k] == x);
        }
    }
}

proof fn lemma_contains_take_step(l: Seq<Script>, j: int, x: Script)
    requires
        0 <= j < l.len(),
    ensures
        l.take(j + 1).contains(x) == (l.take(j).contains(x) || l[j] == x),
{
    assert(l.take(j + 1) =~= l.take(j).push(l[j]));
    lemma_contains_push(l.take(j), l[j], x);
}

proof fn lemma_count_take_step(l: Seq<Script>, j: int)
    requires
        0 <= j < l.len(),
    ensures
        count_non_latin(l.take(j + 1)) == count_non_latin(l.take(j)) + (if l[j] != Script::Latin {
            1int
        } else {
            0int
        }),
{
    assert(l.take(j + 1).drop_last() =~= l.take(j));
    assert(l.take(j + 1).last() == l[j]);
}

proof fn lemma_count_nonneg(l: Seq<Script>)
    ensures
        count_non_latin(l) >= 0,
    decreases l.len(),
{
    if l.len() > 0 {
        lemma_count_nonneg(l.drop_last());
    }
}

proof fn lemma_script_list_contains(s: Seq<char>, x: Script)
    ensures
        script_list(s).contains(x) <==> (exists|i: int|
            0 <= i < s.len() && script_of(#[trigger] s[i]) == x),
    decreases s.len(),
{
    if s.len() == 0 {
    } else {
        let t = s.drop_last();
        let c = s.last();
        let sc = script_of(c);
        lemma_script_list_contains(t, x);
        lemma_contains_push(script_list(t), sc, x);
        if exists|i: int| 0 <= i < t.len() && script_of(#[trigger] t[i]) == x {
            let i = choose|i: int| 0 <= i < t.len() && script_of(#[trigger] t[i]) == x;
            assert(s[i] == t[i]);
            assert(script_of(s[i]) == x);
        }
        if x == sc {
            assert(script_of(s[s.len() - 1]) == x);
        }
        if exists|i: int| 0 <= i < s.len() && script_of(#[trigger] s[i]) == x {
            let i = choose|i: int| 0 <= i < s.len() && script_of(#[trigger] s[i]) == x;
            if i < s.len() - 1 {
                assert(t[i] == s[i]);
                assert(script_of(t[i]) == x);
            } else {
                assert(x == sc);
            }
        }
    }
}

proof fn lemma_script_list_nodup(s: Seq<char>)
    ensures
        script_list(s).no_duplicates(),
    decreases s.len(),
{
    if s.len() == 0 {
    } else {
        let t = s.drop_last();
        lemma_script_list_nodup(t);
        let lt = script_list(t);
        let sc = script_of(s.last());
        if !lt.contains(sc) {
            let l = lt.push(sc);
            assert forall|i: int, j: int| 0 <= i < l.len() && 0 <= j < l.len() && i != j implies l[i]
                != l[j] by {
                if i < lt.len() && j < lt.len() {
                    assert(l[i] == lt[i] && l[j] == lt[j]);
                } else if j == lt.len() {
                    if l[i] == sc {
                        assert(lt[i] == sc);
                        assert(lt.contains(sc));
                    }
                } else {
                    if l[j] == sc {
                        assert(lt[j] == sc);
                        assert(lt.contains(sc));
                    }
                }
            }
        }
    }
}

proof fn lemma_count_single(l: Seq<Script>, k: int)
    requires
        0 <= k < l.len(),
        l[k] != Script::Latin,
    ensures
        count_non_latin(l) >= 1,
    decreases l.len(),
{
    lemma_count_nonneg(l.drop_last());
    if k == l.len() - 1 {
    } else {
        lemma_count_single(l.drop_last(), k);
    }
}

proof fn lemma_count_pos(l: Seq<Script>)
    requires
        count_non_latin(l) >= 1,
    ensures
        exists|k: int| 0 <= k < l.len() && #[trigger] l[k] != Script::Latin,
    decreases l.len(),
{
    if l.last() != Script::Latin {
        assert(l[l.len() - 1] != Script::Latin);
    } else {
        lemma_count_pos(l.drop_last());
        let k = choose|k: int|
            0 <= k < l.drop_last().len() && #[trigger] l.drop_last()[k] != Script::Latin;
        assert(l[k] == l.drop_last()[k]);
    }
}

proof fn lemma_count_ge2(l: Seq<Script>)
    requires
        count_non_latin(l) >= 2,
    ensures
        exists|k1: int, k2: int|
            0 <= k1 < l.len() && 0 <= k2 < l.len() && k1 != k2 && #[trigger] l[k1] != Script::Latin
                && #[trigger] l[k2] != Script::Latin,
    decreases l.len(),
{
    lemma_count_nonneg(l.drop_last());
    let t = l.drop_last();
    if l.last() != Script::Latin {
        lemma_count_pos(t);
        let k = choose|k: int| 0 <= k < t.len() && #[trigger] t[k] != Script::Latin;
        assert(l[k] == t[k]);
        assert(l[l.len() - 1] != Script::Latin);
        assert(l[k] != Script::Latin && l[l.len() - 1] != Script::Latin && k != l.len() - 1);
    } else {
        lemma_count_ge2(t);
        let (k1, k2) = choose|k1: int, k2: int|
            0 <= k1 < t.len() && 0 <= k2 < t.len() && k1 != k2 && #[trigger] t[k1] != Script::Latin
                && #[trigger] t[k2] != Script::Latin;
        assert(l[k1] == t[k1] && l[k2] == t[k2]);
        assert(l[k1] != Script::Latin && l[k2] != Script::Latin && k1 != k2);
    }
}

proof fn lemma_pair_count(l: Seq<Script>, k1: int, k2: int)
    requires
        0 <= k1 < l.len(),
        0 <= k2 < l.len(),
        k1 != k2,
        l[k1] != Script::Latin,
        l[k2] != Script::Latin,
    ensures
        count_non_latin(l) >= 2,
    decreases l.len(),
{
    let t = l.drop_last();
    let a = if k1 < k2 {
        k1
    } else {
        k2
    };
    let b = if k1 < k2 {
        k2
    } else {
        k1
    };
    if b == l.len() - 1 {
        assert(t[a] == l[a]);
        lemma_count_single(t, a);
    } else {
        assert(t[a] == l[a] && t[b] == l[b]);
        lemma_pair_count(t, a, b);
        lemma_count_nonneg(t);
    }
}

/// The analyzer's mixed-script test over the deduplicated script list is
/// exactly the existential mixed-script property of the text.
proof fn lemma_mixed_bridge(s: Seq<char>)
    ensures
        is_mixed_script(s) == ({
            let l = script_list(s);
            count_non_latin(l) > 1 || (count_non_latin(l) == 1 && l.contains(Script::Latin))
        }),
{
    let l = script_list(s);
    lemma_script_list_nodup(s);
    lemma_count_nonneg(l);
    if is_mixed_script(s) {
        let (i, j) = choose|i: int, j: int|
            0 <= i < s.len() && 0 <= j < s.len() && #[trigger] script_of(s[i]) != Script::Latin
                && script_of(s[i]) != #[trigger] script_of(s[j]);
        let a = script_of(s[i]);
        let b = script_of(s[j]);
        lemma_script_list_contains(s, a);
        lemma_script_list_contains(s, b);
        let ka = choose|k: int| 0 <= k < l.len() && l[k] == a;
        let kb = choose|k: int| 0 <= k < l.len() && l[k] == b;
        if b != Script::Latin {
            lemma_pair_count(l, ka, kb);
        } else {
            lemma_count_single(l, ka);
        }
    }
    if count_non_latin(l) > 1 {
        lemma_count_ge2(l);
        let (k1, k2) = choose|k1: int, k2: int|
            0 <= k1 < l.len() && 0 <= k2 < l.len() && k1 != k2 && #[trigger] l[k1] != Script::Latin
                && #[trigger] l[k2] != Script::Latin;
        lemma_script_list_contains(s, l[k1]);
        lemma_script_list_contains(s, l[k2]);
        assert(l.contains(l[k1]));
        assert(l.contains(l[k2]));
        let i = choose|i: int| 0 <= i < s.len() && script_of(#[trigger] s[i]) == l[k1];
        let j = choose|j: int| 0 <= j < s.len() && script_of(#[trigger] s[j]) == l[k2];
        assert(script_of(s[i]) != Script::Latin && script_of(s[i]) != script_of(s[j]));
        assert(is_mixed_script(s));
    } else if count_non_latin(l) == 1 && l.contains(Script::Latin) {
        lemma_count_pos(l);
        let k = choose|k: int| 0 <= k < l.len() && #[trigger] l[k] != Script::Latin;
        lemma_script_list_contains(s, l[k]);
        lemma_script_list_contains(s, Script::Latin);
        assert(l.contains(l[k]));
        let i = choose|i: int| 0 <= i < s.len() && script_of(#[trigger] s[i]) == l[k];
        let j = choose|j: int| 0 <= j < s.len() && script_of(#[trigger] s[j]) == Script::Latin;
        assert(script_of(s[i]) != Script::Latin && script_of(s[i]) != script_of(s[j]));
        assert(is_mixed_script(s));
    }
}

/// Security analysis result for a text.
///
/// The boolean flags are exactly the non-emptiness of their finding
/// lists, except `has_mixed_scripts`, which is derived from the script
/// set; `risk_level` is a pure function of the other fields.
#[derive(Debug, Clone, PartialEq, Eq)]
pub struct SecurityAnalysis {
    /// Contains invisible or zero-width characters
    pub has_invisible_chars: bool,
    /// Contains bidirectional override characters
    pub has_bidi_overrides: bool,
    /// Contains mixed scripts (potential homograph attack)
    pub has_mixed_scripts: bool,
    /// Contains confusable characters
    pub has_confusables: bool,
    /// Detected invisible characters: byte offset, character, description
    pub invisible_chars: Vec<(usize, char, &'static str)>,
    /// Detected bidirectional characters: byte offset, character, description
    pub bidi_chars: Vec<(usize, char, &'static str)>,
    /// Distinct scripts encountered, in order of first appearance
    pub scripts: Vec<Script>,
    /// Overall risk level
    pub risk_level: RiskLevel,
}

/// The additive score of an analysis, recomputed from its fields.
pub open spec fn analysis_score(a: SecurityAnalysis) -> int {
    (if a.has_invisible_chars {
        3int
    } else {
        0int
    }) + (if a.has_bidi_overrides {
        4int
    } else {
        0int
    }) + (if a.has_mixed_scripts {
        2int
    } else {
        0int
    }) + (if a.has_confusables {
        2int
    } else {
        0int
    }) + (if a.invisible_chars@.len() > 3 {
        2int
    } else {
        0int
    }) + (if a.bidi_chars@.len() > 1 {
        2int
    } else {
        0int
    })
}

/// UTF-8 byte width of one character, from its code point.
fn char_utf8_width(c: char) -> (w: usize)
    ensures
        w as int == width_of(c),
{
    let u = c as u32;
    if u < 0x80 {
        1
    } else if u < 0x800 {
        2
    } else if u < 0x10000 {
        3
    } else {
        4
    }
}

/// Linear scan of a script vector for one value.
fn script_vec_contains(v: &Vec<Script>, x: Script) -> (b: bool)
    ensures
        b == v@.contains(x),
{
    let mut k: usize = 0;
    let mut found = false;
    while k < v.len()
        invariant
            k <= v@.len(),
            found == v@.take(k as int).contains(x),
        decreases v@.len() - k,
    {
        proof {
            lemma_contains_take_step(v@, k as int, x);
        }
        if v[k] == x {
            found = true;
        }
        k = k + 1;
    }
    proof {
        assert(v@.take(v@.len() as int) =~= v@);
    }
    found
}

/// Calculate the overall risk level from the findings of an analysis.
fn calculate_risk_level(analysis: &SecurityAnalysis) -> (r: RiskLevel)
    ensures
        r == level_for_score(analysis_score(*analysis)),
{
    let mut score: u32 = 0;
    if analysis.has_invisible_chars {
        score = score + 3;
    }
    if analysis.has_bidi_overrides {
        score = score + 4;
    }
    if analysis.has_mixed_scripts {
        score = score + 2;
    }
    if analysis.has_confusables {
        score = score + 2;
    }
    // additional scoring based on quantity
    if analysis.invisible_chars.len() > 3 {
        score = score + 2;
    }
    if analysis.bidi_chars.len() > 1 {
        score = score + 2;
    }
    if score == 0 {
        RiskLevel::Low
    } else if score <= 3 {
        RiskLevel::Medium
    } else if score <= 6 {
        RiskLevel::High
    } else {
        RiskLevel::Critical
    }
}

/// Analyze text for Unicode security issues.
///
/// One left-to-right pass classifies every character; the returned
/// analysis holds each finding with its byte offset, the set of scripts
/// encountered, and the risk level computed from the findings.
pub fn analyze_text(text: &str) -> (a: SecurityAnalysis)
    ensures
        a.has_invisible_chars == has_any(text@, |c: char| is_invisible(c)),
        a.has_bidi_overrides == has_any(text@, |c: char| is_bidi(c)),
        a.has_confusables == has_any(text@, |c: char| is_confusable(c)),
        a.has_mixed_scripts == is_mixed_script(text@),
        a.invisible_chars@.map_values(|e: (usize, char, &'static str)| (e.0 as int, e.1))
            == invisible_findings(text@),
        a.bidi_chars@.map_values(|e: (usize, char, &'static str)| (e.0 as int, e.1))
            == bidi_findings(text@),
        forall|k: int|
            0 <= k < a.invisible_chars@.len() ==> (#[trigger] a.invisible_chars@[k]).2@
                == description_of(a.invisible_chars@[k].1),
        forall|k: int|
            0 <= k < a.bidi_chars@.len() ==> (#[trigger] a.bidi_chars@[k]).2@ == description_of(
                a.bidi_chars@[k].1,
            ),
        a.has_invisible_chars == (a.invisible_chars@.len() > 0),
        a.has_bidi_overrides == (a.bidi_chars@.len() > 0),
        a.scripts@ == script_list(text@),
        a.risk_level == risk_level_of(text@),
{
    let ghost s = text@;
    let n = text.unicode_len();
    let total = text.as_bytes().len();
    let mut analysis = SecurityAnalysis {
        has_invisible_chars: false,
        has_bidi_overrides: false,
        has_mixed_scripts: false,
        has_confusables: false,
        invisible_chars: Vec::new(),
        bidi_chars: Vec::new(),
        scripts: Vec::new(),
        risk_level: RiskLevel::Low,
    };
    let mut i: usize = 0;
    let mut pos: usize = 0;
    while i < n
        invariant
            i <= n,
            n == s.len(),
            s == text@,
            total as int == byte_len(s),
            pos as int == byte_len(s.take(i as int)),
            analysis.has_invisible_chars == has_any(s.take(i as int), |c: char| is_invisible(c)),
            analysis.has_bidi_overrides == has_any(s.take(i as int), |c: char| is_bidi(c)),
            analysis.has_confusables == has_any(s.take(i as int), |c: char| is_confusable(c)),
            analysis.invisible_chars@.map_values(
                |e: (usize, char, &'static str)| (e.0 as int, e.1),
            ) == flagged(s.take(i as int), |c: char| is_invisible(c)),
            analysis.bidi_chars@.map_values(|e: (usize, char, &'static str)| (e.0 as int, e.1))
                == flagged(s.take(i as int), |c: char| is_bidi(c)),
            forall|k: int|
                0 <= k < analysis.invisible_chars@.len() ==> (
                #[trigger] analysis.invisible_chars@[k]).2@ == description_of(
                    analysis.invisible_chars@[k].1,
                ),
            forall|k: int|
                0 <= k < analysis.bidi_chars@.len() ==> (#[trigger] analysis.bidi_chars@[k]).2@
                    == description_of(analysis.bidi_chars@[k].1),
            analysis.scripts@ == script_list(s.take(i as int)),
        decreases n - i,
    {
        proof {
            lemma_byte_len_take_step(s, i as int);
            lemma_byte_len_prefix_le(s, i as int + 1);
            lemma_has_any_step(s, i as int, |c: char| is_invisible(c));
            lemma_has_any_step(s, i as int, |c: char| is_bidi(c));
            lemma_has_any_step(s, i as int, |c: char| is_confusable(c));
            lemma_flagged_step(s, i as int, |c: char| is_invisible(c));
            lemma_flagged_step(s, i as int, |c: char| is_bidi(c));
            lemma_script_list_step(s, i as int);
        }
        let c = text.get_char(i);
        // check for invisible characters
        if is_invisible_char(c) {
            analysis.has_invisible_chars = true;
            let ghost before = analysis.invisible_chars@;
            analysis.invisible_chars.push((pos, c, get_char_description(c)));
            proof {
                assert(analysis.invisible_chars@.map_values(
                    |e: (usize, char, &'static str)| (e.0 as int, e.1),
                ) =~= before.map_values(|e: (usize, char, &'static str)| (e.0 as int, e.1)).push(
                    (pos as int, c),
                ));
            }
        }
        // check for bidirectional override characters
        if is_bidi_char(c) {
            analysis.has_bidi_overrides = true;
            let ghost before = analysis.bidi_chars@;
            analysis.bidi_chars.push((pos, c, get_char_description(c)));
            proof {
                assert(analysis.bidi_chars@.map_values(
                    |e: (usize, char, &'static str)| (e.0 as int, e.1),
                ) =~= before.map_values(|e: (usize, char, &'static str)| (e.0 as int, e.1)).push(
                    (pos as int, c),
                ));
            }
        }
        // collect scripts
        let sc = get_script(c);
        if !script_vec_contains(&analysis.scripts, sc) {
            analysis.scripts.push(sc);
        }
        // check for confusable characters
        if is_confusable_char(c) {
            analysis.has_confusables = true;
        }
        pos = pos + char_utf8_width(c);
        i = i + 1;
    }
    proof {
        assert(s.take(n as int) =~= s);
    }
    // mixed scripts: non-Latin scripts beside Latin, or several non-Latin
    let mut non_latin: usize = 0;
    let mut has_latin = false;
    let ghost l = analysis.scripts@;
    let m = analysis.scripts.len();
    let mut j: usize = 0;
    while j < m
        invariant
            j <= m,
            m == l.len(),
            analysis.scripts@ == l,
            non_latin <= j,
            non_latin as int == count_non_latin(l.take(j as int)),
            has_latin == l.take(j as int).contains(Script::Latin),
        decreases m - j,
    {
        proof {
            lemma_count_take_step(l, j as int);
            lemma_contains_take_step(l, j as int, Script::Latin);
        }
        let sc = analysis.scripts[j];
        if !(sc == Script::Latin) {
            non_latin = non_latin + 1;
        } else {
            has_latin = true;
        }
        j = j + 1;
    }
    proof {
        assert(l.take(m as int) =~= l);
        lemma_mixed_bridge(s);
    }
    analysis.has_mixed_scripts = non_latin > 1 || (non_latin == 1 && has_latin);
    // calculate risk level
    analysis.risk_level = calculate_risk_level(&analysis);
    proof {
        lemma_flagged_pos_has_any(s, |c: char| is_invisible(c));
        lemma_flagged_pos_has_any(s, |c: char| is_bidi(c));
    }
    analysis
}

/// What sanitizing keeps: every character that is neither invisible nor
/// a bidirectional control, in their original order.
pub open spec fn sanitized(s: Seq<char>) -> Seq<char> {
    s.filter(|c: char| !is_invisible(c) && !is_bidi(c))
}

/// Relies on `String: FromIterator<char>`: collecting characters yields
/// the string of exactly those characters, in order.
#[verifier::external_body]
fn chars_to_string(v: &Vec<char>) -> (r: String)
    ensures
        r@ == v@,
{
    v.iter().collect()
}

proof fn lemma_filter_take_step(s: Seq<char>, i: int, p: spec_fn(char) -> bool)
    requires
        0 <= i < s.len(),
    ensures
        s.take(i + 1).filter(p) == (if p(s[i]) {
            s.take(i).filter(p).push(s[i])
        } else {
            s.take(i).filter(p)
        }),
{
    reveal(Seq::filter);
    assert(s.take(i + 1).drop_last() =~= s.take(i));
    assert(s.take(i + 1).last() == s[i]);
}

/// Sanitize text by removing invisible and bidirectional control
/// characters; all other characters are kept unchanged, in order.
pub fn sanitize_text(text: &str) -> (r: String)
    ensures
        r@ == sanitized(text@),
{
    let ghost s = text@;
    let mut kept: Vec<char> = Vec::new();
    let n = text.unicode_len();
    let mut i: usize = 0;
    proof {
        reveal(Seq::filter);
        assert(s.take(0).filter(|c: char| !is_invisible(c) && !is_bidi(c)) =~= kept@);
    }
    while i < n
        invariant
            i <= n,
            n == s.len(),
            s == text@,
            kept@ == s.take(i as int).filter(|c: char| !is_invisible(c) && !is_bidi(c)),
        decreases n - i,
    {
        proof {
            lemma_filter_take_step(s, i as int, |c: char| !is_invisible(c) && !is_bidi(c));
        }
        let c = text.get_char(i);
        if !is_invisible_char(c) && !is_bidi_char(c) {
            kept.push(c);
        }
        i = i + 1;
    }
    proof {
        assert(s.take(n as int) =~= s);
    }
    chars_to_string(&kept)
}

proof fn lemma_filter_all_kept(s: Seq<char>, p: spec_fn(char) -> bool)
    requires
        forall|k: int| 0 <= k < s.len() ==> p(#[trigger] s[k]),
    ensures
        s.filter(p) == s,
    decreases s.len(),
{
    reveal(Seq::filter);
    if s.len() == 0 {
        assert(s.filter(p) =~= s);
    } else {
        let t = s.drop_last();
        assert(forall|k: int| 0 <= k < t.len() ==> p(#[trigger] t[k]));
        lemma_filter_all_kept(t, p);
        assert(p(s.last()));
        assert(t.push(s.last()) =~= s);
    }
}

/// Sanitizing is idempotent: sanitizing already-sanitized text changes
/// nothing.
pub proof fn lemma_sanitize_idempotent(x: Seq<char>)
    ensures
        sanitized(sanitized(x)) == sanitized(x),
{
    let p = |c: char| !is_invisible(c) && !is_bidi(c);
    assert forall|k: int| 0 <= k < sanitized(x).len() implies p(#[trigger] sanitized(x)[k]) by {
        x.lemma_filter_pred(p, k);
    }
    lemma_filter_all_kept(sanitized(x), p);
}

/// Sanitized text contains nothing the analyzer would flag as invisible
/// or as a bidirectional control.
pub proof fn lemma_sanitize_removes_flagged(x: Seq<char>)
    ensures
        !has_any(sanitized(x), |c: char| is_invisible(c)),
        !has_any(sanitized(x), |c: char| is_bidi(c)),
{
    let p = |c: char| !is_invisible(c) && !is_bidi(c);
    if has_any(sanitized(x), |c: char| is_invisible(c)) {
        let k = choose|k: int| 0 <= k < sanitized(x).len() && is_invisible(#[trigger] sanitized(x)[k]);
        x.lemma_filter_pred(p, k);
    }
    if has_any(sanitized(x), |c: char| is_bidi(c)) {
        let k = choose|k: int| 0 <= k < sanitized(x).len() && is_bidi(#[trigger] sanitized(x)[k]);
        x.lemma_filter_pred(p, k);
    }
}

/// How many characters of `s` satisfy `p`.
pub open spec fn count_matching(s: Seq<char>, p: spec_fn(char) -> bool) -> int
    decreases s.len(),
{
    if s.len() == 0 {
        0
    } else {
        count_matching(s.drop_last(), p) + if p(s.last()) {
            1int
        } else {
            0int
        }
    }
}

proof fn lemma_flagged_len_is_count(s: Seq<char>, p: spec_fn(char) -> bool)
    ensures
        flagged(s, p).len() == count_matching(s, p),
    decreases s.len(),
{
    if s.len() > 0 {
        lemma_flagged_len_is_count(s.drop_last(), p);
    }
}

proof fn lemma_count_matching_insert(s: Seq<char>, i: int, c: char, p: spec_fn(char) -> bool)
    requires
        0 <= i <= s.len(),
    ensures
        count_matching(s.insert(i, c), p) == count_matching(s, p) + (if p(c) {
            1int
        } else {
            0int
        }),
    decreases s.len(),
{
    let t = s.insert(i, c);
    s.insert_ensures(i, c);
    if i == s.len() {
        assert(t =~= s.push(c));
        assert(t.drop_last() =~= s);
        assert(t.last() == c);
    } else {
        s.drop_last().insert_ensures(i, c);
        assert(t.drop_last() =~= s.drop_last().insert(i, c));
        assert(t.last() == s.last());
        lemma_count_matching_insert(s.drop_last(), i, c, p);
    }
}

proof fn lemma_has_any_insert(s: Seq<char>, i: int, c: char, p: spec_fn(char) -> bool)
    requires
        0 <= i <= s.len(),
        has_any(s, p),
    ensures
        has_any(s.insert(i, c), p),
{
    let t = s.insert(i, c);
    s.insert_ensures(i, c);
    let k = choose|k: int| 0 <= k < s.len() && p(#[trigger] s[k]);
    if k < i {
        assert(t[k] == s[k]);
    } else {
        assert(t[k + 1] == s[k]);
    }
}

proof fn lemma_mixed_insert(s: Seq<char>, i: int, c: char)
    requires
        0 <= i <= s.len(),
        is_mixed_script(s),
    ensures
        is_mixed_script(s.insert(i, c)),
{
    let t = s.insert(i, c);
    s.insert_ensures(i, c);
    let (a, b) = choose|a: int, b: int|
        0 <= a < s.len() && 0 <= b < s.len() && #[trigger] script_of(s[a]) != Script::Latin
            && script_of(s[a]) != #[trigger] script_of(s[b]);
    let a2 = if a < i {
        a
    } else {
        a + 1
    };
    let b2 = if b < i {
        b
    } else {
        b + 1
    };
    assert(t[a2] == s[a]);
    assert(t[b2] == s[b]);
    assert(script_of(t[a2]) != Script::Latin && script_of(t[a2]) != script_of(t[b2]));
}

/// Inserting a character anywhere in a text never decreases its risk
/// score; in particular adding more qualifying characters never lowers
/// the computed risk.
pub proof fn lemma_risk_score_monotonic(s: Seq<char>, i: int, c: char)
    requires
        0 <= i <= s.len(),
    ensures
        risk_score(s.insert(i, c)) >= risk_score(s),
{
    let t = s.insert(i, c);
    if has_any(s, |c: char| is_invisible(c)) {
        lemma_has_any_insert(s, i, c, |c: char| is_invisible(c));
    }
    if has_any(s, |c: char| is_bidi(c)) {
        lemma_has_any_insert(s, i, c, |c: char| is_bidi(c));
    }
    if has_any(s, |c: char| is_confusable(c)) {
        lemma_has_any_insert(s, i, c, |c: char| is_confusable(c));
    }
    if is_mixed_script(s) {
        lemma_mixed_insert(s, i, c);
    }
    lemma_flagged_len_is_count(s, |c: char| is_invisible(c));
    lemma_flagged_len_is_count(t, |c: char| is_invisible(c));
    lemma_count_matching_insert(s, i, c, |c: char| is_invisible(c));
    lemma_flagged_len_is_count(s, |c: char| is_bidi(c));
    lemma_flagged_len_is_count(t, |c: char| is_bidi(c));
    lemma_count_matching_insert(s, i, c, |c: char| is_bidi(c));
}

proof fn lemma_width_pos(c: char)
    ensures
        1 <= width_of(c) <= 4,
{
}

proof fn lemma_flagged_bounds(s: Seq<char>, p: spec_fn(char) -> bool)
    ensures
        forall|k: int| 0 <= k < flagged(s, p).len() ==> (#[trigger] flagged(s, p)[k]).0 < byte_len(s),
        forall|k1: int, k2: int|
            0 <= k1 < k2 < flagged(s, p).len() ==> (#[trigger] flagged(s, p)[k1]).0 < (
            #[trigger] flagged(s, p)[k2]).0,
    decreases s.len(),
{
    if s.len() > 0 {
        let t = s.drop_last();
        lemma_flagged_bounds(t, p);
        lemma_width_pos(s.last());
        assert(t.push(s.last()) =~= s);
        lemma_byte_len_push(t, s.last());
        let ft = flagged(t, p);
        let fs = flagged(s, p);
        if p(s.last()) {
            assert(fs == ft.push((byte_len(t), s.last())));
            assert forall|k: int| 0 <= k < fs.len() implies (#[trigger] fs[k]).0 < byte_len(s) by {
                if k < ft.len() {
                    assert(fs[k] == ft[k]);
                } else {
                    assert(fs[k] == (byte_len(t), s.last()));
                }
            }
            assert forall|k1: int, k2: int| 0 <= k1 < k2 < fs.len() implies (#[trigger] fs[k1]).0
                < (#[trigger] fs[k2]).0 by {
                if k2 < ft.len() {
                    assert(fs[k1] == ft[k1] && fs[k2] == ft[k2]);
                } else {
                    assert(fs[k1] == ft[k1]);
                    assert(fs[k2] == (byte_len(t), s.last()));
                    assert(ft[k1].0 < byte_len(t));
                }
            }
        } else {
            assert(fs == ft);
            assert forall|k: int| 0 <= k < fs.len() implies (#[trigger] fs[k]).0 < byte_len(s) by {
                assert(fs[k] == ft[k]);
                assert(ft[k].0 < byte_len(t));
            }
        }
    }
}

/// Findings are reported in strictly increasing byte-offset order, for
/// the invisible and the bidirectional finding lists alike.
pub proof fn lemma_findings_ordered(s: Seq<char>)
    ensures
        forall|k1: int, k2: int|
            0 <= k1 < k2 < invisible_findings(s).len() ==> (#[trigger] invisible_findings(
                s,
            )[k1]).0 < (#[trigger] invisible_findings(s)[k2]).0,
        forall|k1: int, k2: int|
            0 <= k1 < k2 < bidi_findings(s).len() ==> (#[trigger] bidi_findings(s)[k1]).0 < (
            #[trigger] bidi_findings(s)[k2]).0,
{
    lemma_flagged_bounds(s, |c: char| is_invisible(c));
    lemma_flagged_bounds(s, |c: char| is_bidi(c));
}

proof fn lemma_flagged_pos_has_any(s: Seq<char>, p: spec_fn(char) -> bool)
    ensures
        (flagged(s, p).len() > 0) == has_any(s, p),
    decreases s.len(),
{
    if s.len() == 0 {
    } else {
        let t = s.drop_last();
        lemma_flagged_pos_has_any(t, p);
        lemma_has_any_step(s, s.len() - 1, p);
        assert(s.take(s.len() as int) =~= s);
        assert(s.take(s.len() - 1) =~= t);
    }
}

/// A text whose only finding is a single invisible character scores
/// exactly three points and is classified `Medium`.
pub proof fn lemma_single_invisible_is_medium(s: Seq<char>)
    requires
        invisible_findings(s).len() == 1,
        !has_any(s, |c: char| is_bidi(c)),
        !has_any(s, |c: char| is_confusable(c)),
        !is_mixed_script(s),
    ensures
        risk_level_of(s) == RiskLevel::Medium,
{
    lemma_flagged_pos_has_any(s, |c: char| is_invisible(c));
    lemma_flagged_pos_has_any(s, |c: char| is_bidi(c));
}

/// A text whose only finding is a single bidirectional control character
/// scores exactly four points and is classified `High`.
pub proof fn lemma_single_bidi_is_high(s: Seq<char>)
    requires
        bidi_findings(s).len() == 1,
        !has_any(s, |c: char| is_invisible(c)),
        !has_any(s, |c: char| is_confusable(c)),
        !is_mixed_script(s),
    ensures
        risk_level_of(s) == RiskLevel::High,
{
    lemma_flagged_pos_has_any(s, |c: char| is_bidi(c));
    lemma_flagged_pos_has_any(s, |c: char| is_invisible(c));
}

/// ASCII letters.
pub open spec fn is_ascii_letter(c: char) -> bool {
    let u = c as u32;
    (0x41 <= u && u <= 0x5A) || (0x61 <= u && u <= 0x7A)
}

proof fn lemma_all_latin_script_list(s: Seq<char>)
    requires
        forall|k: int| 0 <= k < s.len() ==> script_of(#[trigger] s[k]) == Script::Latin,
    ensures
        s.len() == 0 ==> script_list(s) == Seq::<Script>::empty(),
        s.len() > 0 ==> script_list(s) == seq![Script::Latin],
    decreases s.len(),
{
    if s.len() == 0 {
    } else {
        let t = s.drop_last();
        assert(forall|k: int| 0 <= k < t.len() ==> script_of(#[trigger] t[k]) == Script::Latin);
        lemma_all_latin_script_list(t);
        assert(script_of(s.last()) == Script::Latin);
        if t.len() == 0 {
            assert(!script_list(t).contains(Script::Latin));
            assert(Seq::<Script>::empty().push(Script::Latin) =~= seq![Script::Latin]);
        } else {
            assert(seq![Script::Latin][0] == Script::Latin);
            assert(script_list(t).contains(Script::Latin));
        }
    }
}

/// Text of ASCII letters, digits and common punctuation only: no flags,
/// the script set is exactly `Latin`, and the risk level is `Low`.
pub proof fn lemma_plain_latin_is_low(s: Seq<char>)
    requires
        forall|k: int|
            0 <= k < s.len() ==> is_ascii_letter(#[trigger] s[k]) || is_common_latin_symbol(s[k]),
    ensures
        !has_any(s, |c: char| is_invisible(c)),
        !has_any(s, |c: char| is_bidi(c)),
        !has_any(s, |c: char| is_confusable(c)),
        !is_mixed_script(s),
        s.len() > 0 ==> script_list(s) == seq![Script::Latin],
        risk_level_of(s) == RiskLevel::Low,
{
    assert forall|k: int| 0 <= k < s.len() implies script_of(#[trigger] s[k]) == Script::Latin by {
        assert(is_ascii_letter(s[k]) || is_common_latin_symbol(s[k]));
    }
    if has_any(s, |c: char| is_invisible(c)) {
        let k = choose|k: int| 0 <= k < s.len() && is_invisible(#[trigger] s[k]);
        assert(false);
    }
    if has_any(s, |c: char| is_bidi(c)) {
        let k = choose|k: int| 0 <= k < s.len() && is_bidi(#[trigger] s[k]);
        assert(false);
    }
    if has_any(s, |c: char| is_confusable(c)) {
        let k = choose|k: int| 0 <= k < s.len() && is_confusable(#[trigger] s[k]);
        assert(false);
    }
    if is_mixed_script(s) {
        let (a, b) = choose|a: int, b: int|
            0 <= a < s.len() && 0 <= b < s.len() && #[trigger] script_of(s[a]) != Script::Latin
                && script_of(s[a]) != #[trigger] script_of(s[b]);
        assert(false);
    }
    lemma_all_latin_script_list(s);
    lemma_flagged_pos_has_any(s, |c: char| is_invisible(c));
    lemma_flagged_pos_has_any(s, |c: char| is_bidi(c));
}

/// The character for one decimal digit.
pub open spec fn digit_char(d: int) -> char {
    if d == 0 {
        '0'
    } else if d == 1 {
        '1'
    } else if d == 2 {
        '2'
    } else if d == 3 {
        '3'
    } else if d == 4 {
        '4'
    } else if d == 5 {
        '5'
    } else if d == 6 {
        '6'
    } else if d == 7 {
        '7'
    } else if d == 8 {
        '8'
    } else {
        '9'
    }
}

/// The character for one hexadecimal digit, uppercase.
pub open spec fn hex_digit_char(d: int) -> char {
    if d < 10 {
        digit_char(d)
    } else if d == 10 {
        'A'
    } else if d == 11 {
        'B'
    } else if d == 12 {
        'C'
    } else if d == 13 {
        'D'
    } else if d == 14 {
        'E'
    } else {
        'F'
    }
}

/// Decimal rendering of a nonnegative number, most significant digit
/// first, no leading zeros.
pub open spec fn dec_digits(n: int) -> Seq<char>
    recommends
        n >= 0,
    decreases n,
{
    if n < 10 {
        seq![digit_char(n)]
    } else {
        dec_digits(n / 10).push(digit_char(n % 10))
    }
}

/// Uppercase hexadecimal rendering of a nonnegative number, most
/// significant digit first, no leading zeros.
pub open spec fn hex_digits(n: int) -> Seq<char>
    recommends
        n >= 0,
    decreases n,
{
    if n < 16 {
        seq![hex_digit_char(n)]
    } else {
        hex_digits(n / 16).push(hex_digit_char(n % 16))
    }
}

/// Hexadecimal rendering zero-padded to at least four digits, as code
/// points are conventionally written after `U+`.
pub open spec fn hex_padded(n: int) -> Seq<char> {
    if n < 0x10 {
        seq!['0', '0', '0'] + hex_digits(n)
    } else if n < 0x100 {
        seq!['0', '0'] + hex_digits(n)
    } else if n < 0x1000 {
        seq!['0'] + hex_digits(n)
    } else {
        hex_digits(n)
    }
}

/// Name of a risk level, as the report prints it.
pub open spec fn risk_name(r: RiskLevel) -> Seq<char> {
    match r {
        RiskLevel::Low => "Low"@,
        RiskLevel::Medium => "Medium"@,
        RiskLevel::High => "High"@,
        RiskLevel::Critical => "Critical"@,
    }
}

/// Name of a script, as the report prints it.
pub open spec fn script_name(sc: Script) -> Seq<char> {
    match sc {
        Script::Latin => "Latin"@,
        Script::Cyrillic => "Cyrillic"@,
        Script::Greek => "Greek"@,
        Script::Arabic => "Arabic"@,
        Script::Hebrew => "Hebrew"@,
        Script::Chinese => "Chinese"@,
        Script::Japanese => "Japanese"@,
        Script::Korean => "Korean"@,
        Script::Thai => "Thai"@,
        Script::Devanagari => "Devanagari"@,
        Script::Other(u) => "Other("@ + dec_digits(u as int) + ")"@,
    }
}

/// One report line for a finding: its byte offset, code point and name.
pub open spec fn finding_line(e: (int, char)) -> Seq<char> {
    "  Position "@ + dec_digits(e.0) + ": U+"@ + hex_padded(e.1 as u32 as int) + " ("@
        + description_of(e.1) + ")\n"@
}

/// The report lines for a list of findings, in order.
pub open spec fn finding_lines(es: Seq<(int, char)>) -> Seq<char>
    decreases es.len(),
{
    if es.len() == 0 {
        Seq::empty()
    } else {
        finding_lines(es.drop_last()) + finding_line(es.last())
    }
}

/// The report lines naming each script of a list, in order.
pub open spec fn script_lines(l: Seq<Script>) -> Seq<char>
    decreases l.len(),
{
    if l.len() == 0 {
        Seq::empty()
    } else {
        script_lines(l.drop_last()) + "  "@ + script_name(l.last()) + "\n"@
    }
}

/// The invisible-characters section of the report, present exactly when
/// an invisible character was found.
pub open spec fn invisible_section(s: Seq<char>) -> Seq<char> {
    if has_any(s, |c: char| is_invisible(c)) {
        "\u{26A0}\u{FE0F}  INVISIBLE CHARACTERS DETECTED:\n"@ + finding_lines(invisible_findings(s))
            + "\n"@
    } else {
        Seq::empty()
    }
}

/// The bidirectional-characters section of the report.
pub open spec fn bidi_section(s: Seq<char>) -> Seq<char> {
    if has_any(s, |c: char| is_bidi(c)) {
        "\u{26A0}\u{FE0F}  BIDIRECTIONAL OVERRIDE CHARACTERS DETECTED:\n"@ + finding_lines(
            bidi_findings(s),
        ) + "\n"@
    } else {
        Seq::empty()
    }
}

/// The mixed-scripts section of the report, listing every script seen.
pub open spec fn mixed_section(s: Seq<char>) -> Seq<char> {
    if is_mixed_script(s) {
        "\u{26A0}\u{FE0F}  MIXED SCRIPTS DETECTED (Potential Homograph Attack):\n"@ + script_lines(
            script_list(s),
        ) + "\n"@
    } else {
        Seq::empty()
    }
}

/// The confusable-characters section of the report.
pub open spec fn confusable_section(s: Seq<char>) -> Seq<char> {
    if has_any(s, |c: char| is_confusable(c)) {
        "\u{26A0}\u{FE0F}  CONFUSABLE CHARACTERS DETECTED\n\n"@
    } else {
        Seq::empty()
    }
}

/// The closing confirmation line, present exactly at `Low` risk.
pub open spec fn low_risk_section(s: Seq<char>) -> Seq<char> {
    if risk_level_of(s) == RiskLevel::Low {
        "\u{2705} No security concerns detected.\n"@
    } else {
        Seq::empty()
    }
}

/// The whole report for a text: header, risk level, then one section per
/// finding category, each present exactly when its flag is set.
pub open spec fn report_view(s: Seq<char>) -> Seq<char> {
    "Unicode Security Analysis\n"@ + "========================\n\n"@ + "Risk Level: "@ + risk_name(
        risk_level_of(s),
    ) + "\n\n"@ + invisible_section(s) + bidi_section(s) + mixed_section(s) + confusable_section(s)
        + low_risk_section(s)
}

fn digit_exec(d: usize) -> (c: char)
    requires
        d < 10,
    ensures
        c == digit_char(d as int),
{
    if d == 0 {
        '0'
    } else if d == 1 {
        '1'
    } else if d == 2 {
        '2'
    } else if d == 3 {
        '3'
    } else if d == 4 {
        '4'
    } else if d == 5 {
        '5'
    } else if d == 6 {
        '6'
    } else if d == 7 {
        '7'
    } else if d == 8 {
        '8'
    } else {
        '9'
    }
}

fn hex_digit_exec(d: u32) -> (c: char)
    requires
        d < 16,
    ensures
        c == hex_digit_char(d as int),
{
    if d < 10 {
        digit_exec(d as usize)
    } else if d == 10 {
        'A'
    } else if d == 11 {
        'B'
    } else if d == 12 {
        'C'
    } else if d == 13 {
        'D'
    } else if d == 14 {
        'E'
    } else {
        'F'
    }
}

/// Append the decimal rendering of `n`.
fn push_dec_digits(out: &mut Vec<char>, n: usize)
    ensures
        final(out)@ == old(out)@ + dec_digits(n as int),
    decreases n,
{
    if n < 10 {
        out.push(digit_exec(n));
        proof {
            assert(out@ =~= old(out)@ + dec_digits(n as int));
        }
    } else {
        push_dec_digits(out, n / 10);
        out.push(digit_exec(n % 10));
        proof {
            assert(out@ =~= old(out)@ + dec_digits(n as int));
        }
    }
}

/// Append the hexadecimal rendering of `n`.
fn push_hex_digits(out: &mut Vec<char>, n: u32)
    ensures
        final(out)@ == old(out)@ + hex_digits(n as int),
    decreases n,
{
    if n < 16 {
        out.push(hex_digit_exec(n));
        proof {
            assert(out@ =~= old(out)@ + hex_digits(n as int));
        }
    } else {
        push_hex_digits(out, n / 16);
        out.push(hex_digit_exec(n % 16));
        proof {
            assert(out@ =~= old(out)@ + hex_digits(n as int));
        }
    }
}

/// Append the hexadecimal rendering of `n`, zero-padded to four digits.
fn push_hex_padded(out: &mut Vec<char>, n: u32)
    ensures
        final(out)@ == old(out)@ + hex_padded(n as int),
{
    if n < 0x10 {
        out.push('0');
        out.push('0');
        out.push('0');
    } else if n < 0x100 {
        out.push('0');
        out.push('0');
    } else if n < 0x1000 {
        out.push('0');
    }
    push_hex_digits(out, n);
    proof {
        assert(out@ =~= old(out)@ + hex_padded(n as int));
    }
}

/// Append every character of `s`.
fn push_str_chars(out: &mut Vec<char>, s: &str)
    ensures
        final(out)@ == old(out)@ + s@,
{
    let n = s.unicode_len();
    let mut i: usize = 0;
    proof {
        assert(out@ =~= old(out)@ + s@.take(0));
    }
    while i < n
        invariant
            i <= n,
            n == s@.len(),
            out@ == old(out)@ + s@.take(i as int),
        decreases n - i,
    {
        let c = s.get_char(i);
        out.push(c);
        proof {
            assert(out@ =~= old(out)@ + s@.take(i as int + 1));
        }
        i = i + 1;
    }
    proof {
        assert(s@.take(n as int) =~= s@);
    }
}

/// The printed name of a risk level.
fn risk_label(r: RiskLevel) -> (s: &'static str)
    ensures
        s@ == risk_name(r),
{
    match r {
        RiskLevel::Low => "Low",
        RiskLevel::Medium => "Medium",
        RiskLevel::High => "High",
        RiskLevel::Critical => "Critical",
    }
}

/// Append the printed name of a script.
fn push_script_name(out: &mut Vec<char>, sc: Script)
    ensures
        final(out)@ == old(out)@ + script_name(sc),
{
    match sc {
        Script::Latin => push_str_chars(out, "Latin"),
        Script::Cyrillic => push_str_chars(out, "Cyrillic"),
        Script::Greek => push_str_chars(out, "Greek"),
        Script::Arabic => push_str_chars(out, "Arabic"),
        Script::Hebrew => push_str_chars(out, "Hebrew"),
        Script::Chinese => push_str_chars(out, "Chinese"),
        Script::Japanese => push_str_chars(out, "Japanese"),
        Script::Korean => push_str_chars(out, "Korean"),
        Script::Thai => push_str_chars(out, "Thai"),
        Script::Devanagari => push_str_chars(out, "Devanagari"),
        Script::Other(u) => {
            push_str_chars(out, "Other(");
            push_dec_digits(out, u as usize);
            push_str_chars(out, ")");
            proof {
                assert(out@ =~= old(out)@ + script_name(sc));
            }
        },
    }
}

proof fn lemma_finding_lines_step(es: Seq<(int, char)>, k: int)
    requires
        0 <= k < es.len(),
    ensures
        finding_lines(es.take(k + 1)) == finding_lines(es.take(k)) + finding_line(es[k]),
{
    assert(es.take(k + 1).drop_last() =~= es.take(k));
    assert(es.take(k + 1).last() == es[k]);
}

proof fn lemma_script_lines_step(l: Seq<Script>, k: int)
    requires
        0 <= k < l.len(),
    ensures
        script_lines(l.take(k + 1)) == script_lines(l.take(k)) + "  "@ + script_name(l[k]) + "\n"@,
{
    assert(l.take(k + 1).drop_last() =~= l.take(k));
    assert(l.take(k + 1).last() == l[k]);
}

/// Generate a multi-section textual security report for the given text.
///
/// The report holds a header, the overall risk level, a section for each
/// finding category whose flag is set, and a confirmation line when the
/// risk is `Low`.
pub fn generate_security_report(text: &str) -> (r: String)
    ensures
        r@ == report_view(text@),
{
    let ghost s = text@;
    let analysis = analyze_text(text);
    let mut out: Vec<char> = Vec::new();
    push_str_chars(&mut out, "Unicode Security Analysis\n");
    push_str_chars(&mut out, "========================\n\n");
    push_str_chars(&mut out, "Risk Level: ");
    push_str_chars(&mut out, risk_label(analysis.risk_level));
    push_str_chars(&mut out, "\n\n");
    let ghost head = "Unicode Security Analysis\n"@ + "========================\n\n"@
        + "Risk Level: "@ + risk_name(risk_level_of(s)) + "\n\n"@;
    proof {
        assert(out@ =~= head);
    }
    if analysis.has_invisible_chars {
        push_str_chars(&mut out, "\u{26A0}\u{FE0F}  INVISIBLE CHARACTERS DETECTED:\n");
        let ghost fs = invisible_findings(s);
        let ghost pre = out@;
        let m = analysis.invisible_chars.len();
        let mut k: usize = 0;
        proof {
            assert(fs.take(0) =~= Seq::<(int, char)>::empty());
            assert(out@ =~= pre + finding_lines(fs.take(0)));
        }
        while k < m
            invariant
                k <= m,
                m == analysis.invisible_chars@.len(),
                m == fs.len(),
                fs == invisible_findings(s),
                analysis.invisible_chars@.map_values(
                    |e: (usize, char, &'static str)| (e.0 as int, e.1),
                ) == fs,
                forall|kk: int|
                    0 <= kk < analysis.invisible_chars@.len() ==> (
                    #[trigger] analysis.invisible_chars@[kk]).2@ == description_of(
                        analysis.invisible_chars@[kk].1,
                    ),
                out@ == pre + finding_lines(fs.take(k as int)),
            decreases m - k,
        {
            let e = analysis.invisible_chars[k];
            proof {
                lemma_finding_lines_step(fs, k as int);
                assert(analysis.invisible_chars@.map_values(
                    |e: (usize, char, &'static str)| (e.0 as int, e.1),
                )[k as int] == fs[k as int]);
                assert((e.0 as int, e.1) == fs[k as int]);
                assert(e.2@ == description_of(e.1));
            }
            push_str_chars(&mut out, "  Position ");
            push_dec_digits(&mut out, e.0);
            push_str_chars(&mut out, ": U+");
            push_hex_padded(&mut out, e.1 as u32);
            push_str_chars(&mut out, " (");
            push_str_chars(&mut out, e.2);
            push_str_chars(&mut out, ")\n");
            proof {
                assert(out@ =~= pre + finding_lines(fs.take(k as int + 1)));
            }
            k = k + 1;
        }
        proof {
            assert(fs.take(m as int) =~= fs);
        }
        push_str_chars(&mut out, "\n");
        proof {
            assert(out@ =~= head + invisible_section(s));
        }
    }
    let ghost after_inv = head + invisible_section(s);
    proof {
        assert(out@ =~= after_inv);
    }
    if analysis.has_bidi_overrides {
        push_str_chars(&mut out, "\u{26A0}\u{FE0F}  BIDIRECTIONAL OVERRIDE CHARACTERS DETECTED:\n");
        let ghost fs = bidi_findings(s);
        let ghost pre = out@;
        let m = analysis.bidi_chars.len();
        let mut k: usize = 0;
        proof {
            assert(fs.take(0) =~= Seq::<(int, char)>::empty());
            assert(out@ =~= pre + finding_lines(fs.take(0)));
        }
        while k < m
            invariant
                k <= m,
                m == analysis.bidi_chars@.len(),
                m == fs.len(),
                fs == bidi_findings(s),
                analysis.bidi_chars@.map_values(
                    |e: (usize, char, &'static str)| (e.0 as int, e.1),
                ) == fs,
                forall|kk: int|
                    0 <= kk < analysis.bidi_chars@.len() ==> (
                    #[trigger] analysis.bidi_chars@[kk]).2@ == description_of(
                        analysis.bidi_chars@[kk].1,
                    ),
                out@ == pre + finding_lines(fs.take(k as int)),
            decreases m - k,
        {
            let e = analysis.bidi_chars[k];
            proof {
                lemma_finding_lines_step(fs, k as int);
                assert(analysis.bidi_chars@.map_values(
                    |e: (usize, char, &'static str)| (e.0 as int, e.1),
                )[k as int] == fs[k as int]);
                assert((e.0 as int, e.1) == fs[k as int]);
                assert(e.2@ == description_of(e.1));
            }
            push_str_chars(&mut out, "  Position ");
            push_dec_digits(&mut out, e.0);
            push_str_chars(&mut out, ": U+");
            push_hex_padded(&mut out, e.1 as u32);
            push_str_chars(&mut out, " (");
            push_str_chars(&mut out, e.2);
            push_str_chars(&mut out, ")\n");
            proof {
                assert(out@ =~= pre + finding_lines(fs.take(k as int + 1)));
            }
            k = k + 1;
        }
        proof {
            assert(fs.take(m as int) =~= fs);
        }
        push_str_chars(&mut out, "\n");
    }
    let ghost after_bidi = after_inv + bidi_section(s);
    proof {
        assert(out@ =~= after_bidi);
    }
    if analysis.has_mixed_scripts {
        push_str_chars(&mut out, "\u{26A0}\u{FE0F}  MIXED SCRIPTS DETECTED (Potential Homograph Attack):\n");
        let ghost l = script_list(s);
        let ghost pre = out@;
        let m = analysis.scripts.len();
        let mut k: usize = 0;
        proof {
            assert(l.take(0) =~= Seq::<Script>::empty());
            assert(out@ =~= pre + script_lines(l.take(0)));
        }
        while k < m
            invariant
                k <= m,
                m == analysis.scripts@.len(),
                analysis.scripts@ == l,
                out@ == pre + script_lines(l.take(k as int)),
            decreases m - k,
        {
            proof {
                lemma_script_lines_step(l, k as int);
            }
            let sc = analysis.scripts[k];
            push_str_chars(&mut out, "  ");
            push_script_name(&mut out, sc);
            push_str_chars(&mut out, "\n");
            proof {
                assert(out@ =~= pre + script_lines(l.take(k as int + 1)));
            }
            k = k + 1;
        }
        proof {
            assert(l.take(m as int) =~= l);
        }
        push_str_chars(&mut out, "\n");
    }
    let ghost after_mixed = after_bidi + mixed_section(s);
    proof {
        assert(out@ =~= after_mixed);
    }
    if analysis.has_confusables {
        push_str_chars(&mut out, "\u{26A0}\u{FE0F}  CONFUSABLE CHARACTERS DETECTED\n\n");
    }
    let ghost after_conf = after_mixed + confusable_section(s);
    proof {
        assert(out@ =~= after_conf);
    }
    if analysis.risk_level == RiskLevel::Low {
        push_str_chars(&mut out, "\u{2705} No security concerns detected.\n");
    }
    proof {
        assert(out@ =~= report_view(s));
    }
    chars_to_string(&out)
}

} // verus!
