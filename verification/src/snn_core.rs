//! The node's spiking neural core: its neuron budget and the language
//! detector that answers the first greeting.

use vstd::prelude::*;
use vstd::string::StrSliceExecFns;
use rand_chacha::ChaCha20Rng;
use crate::text::{contains_chars, text_contains};

verus! {

/// Fewest neurons the core runs with.
pub const MIN_NEURONS: usize = 5000;

/// Most neurons the core runs with.
pub const MAX_NEURONS: usize = 112384;

#[verifier::external_type_specification]
#[verifier::external_body]
pub struct ExChaCha20Rng(ChaCha20Rng);

/// The neuron count for a raw estimate: raised to `MIN_NEURONS`, then cut to `MAX_NEURONS`.
pub open spec fn clamped_neurons(raw: int) -> int {
    let raised = if raw < MIN_NEURONS { MIN_NEURONS as int } else { raw };
    if raised > MAX_NEURONS { MAX_NEURONS as int } else { raised }
}

/// `raw.max(MIN_NEURONS).min(MAX_NEURONS)`.
pub fn clamp_neuron_count(raw: usize) -> (n: usize)
    ensures
        n == clamped_neurons(raw as int),
        MIN_NEURONS <= n <= MAX_NEURONS,
{
    let raised = if raw < MIN_NEURONS { MIN_NEURONS } else { raw };
    if raised > MAX_NEURONS { MAX_NEURONS } else { raised }
}

/// A generator seeded from the operating system's entropy source
/// (`SeedableRng::from_entropy`). Nothing is stated of the seed; the call panics
/// only when the operating system gives no entropy, which no argument controls.
#[verifier::external_body]
fn seeded_rng() -> ChaCha20Rng {
    <ChaCha20Rng as rand_chacha::rand_core::SeedableRng>::from_entropy()
}

/// The neural core of a node.
pub struct SNNCore {
    neurons: usize,
    rng: ChaCha20Rng,
}

impl SNNCore {
    #[verifier::type_invariant]
    closed spec fn wf(self) -> bool {
        MIN_NEURONS <= self.neurons <= MAX_NEURONS
    }

    /// The number of neurons of this core.
    pub closed spec fn neurons(&self) -> int {
        self.neurons as int
    }

    /// A core sized from the raw estimate `raw_neurons` (cores times memory, see the
    /// node program), clamped into `MIN_NEURONS..=MAX_NEURONS`, with a freshly seeded
    /// generator.
    pub fn new(raw_neurons: usize) -> (core: SNNCore)
        ensures
            core.neurons() == clamped_neurons(raw_neurons as int),
    {
        let neurons = clamp_neuron_count(raw_neurons);
        SNNCore { neurons, rng: seeded_rng() }
    }

    /// The number of neurons; always within `MIN_NEURONS..=MAX_NEURONS`.
    pub fn neuron_count(&self) -> (n: usize)
        ensures
            n == self.neurons(),
            MIN_NEURONS <= n <= MAX_NEURONS,
    {
        proof {
            use_type_invariant(self);
        }
        self.neurons
    }

    /// Detects the language of `text` and answers the greeting in it: returns the
    /// language code and the reply.
    pub fn detect_and_translate(&self, text: &str) -> (r: (String, String))
        ensures
            r.0@ == language_code(is_vietnamese(text@, lowercase_chars(text@))),
            r.1@ == greeting(is_vietnamese(text@, lowercase_chars(text@))),
            !has_marked_letter(text@) ==> lowercase_chars(text@) == ascii_lowered(text@),
    {
        let lowered = to_lowercase(text);
        let vi = detect_vietnamese(text, lowered.as_str());
        greeting_reply(vi)
    }
}

/// What `str::to_lowercase` gives for a text: each character replaced by its Unicode
/// lowercase mapping.
pub uninterp spec fn lowercase_chars(s: Seq<char>) -> Seq<char>;

/// The ASCII lowercase of a character: `A`..=`Z` to `a`..=`z`, any other unchanged.
pub open spec fn ascii_lower_char(c: char) -> char {
    if 65 <= (c as u32) && (c as u32) <= 90 {
        ((c as u32) + 32) as char
    } else {
        c
    }
}

/// Each character of `s` in ASCII lowercase.
pub open spec fn ascii_lowered(s: Seq<char>) -> Seq<char> {
    s.map_values(|c: char| ascii_lower_char(c))
}

/// `str::to_lowercase`; its result is named by `lowercase_chars`. Among the code
/// points below 0xC0 only `A`..=`Z` have a lowercase mapping other than themselves
/// (Unicode's `Lowercase_Mapping`), and the one context-dependent rule of
/// `to_lowercase` (final sigma) concerns U+03A3, so a text with no character at or
/// beyond 0xC0 is lowercased character by character in ASCII.
#[verifier::external_body]
fn to_lowercase(s: &str) -> (r: String)
    ensures
        r@ == lowercase_chars(s@),
        !has_marked_letter(s@) ==> r@ == ascii_lowered(s@),
{
    s.to_lowercase()
}

/// Some character of `s` has a code point of at least 0xC0 (Latin letters with marks
/// and everything beyond).
pub open spec fn has_marked_letter(s: Seq<char>) -> bool {
    exists|i: int| 0 <= i < s.len() && (s[i] as u32) >= 0xC0
}

/// `s` contains one of the Vietnamese marker words.
pub open spec fn has_vietnamese_word(s: Seq<char>) -> bool {
    ||| contains_chars(s, "chào"@)
    ||| contains_chars(s, "xin"@)
    ||| contains_chars(s, "em"@)
    ||| contains_chars(s, "anh"@)
    ||| contains_chars(s, "ơi"@)
    ||| contains_chars(s, "nhé"@)
    ||| contains_chars(s, "Việt"@)
    ||| contains_chars(s, "tôi"@)
    ||| contains_chars(s, "là"@)
    ||| contains_chars(s, "á"@)
    ||| contains_chars(s, "ừ"@)
    ||| contains_chars(s, "dạ"@)
}

/// The text is taken for Vietnamese: it has a marked letter, or its lowercase form
/// `lowered` holds a marker word.
pub open spec fn is_vietnamese(text: Seq<char>, lowered: Seq<char>) -> bool {
    has_marked_letter(text) || has_vietnamese_word(lowered)
}

/// The language code answered.
pub open spec fn language_code(vi: bool) -> Seq<char> {
    if vi { "vi"@ } else { "en"@ }
}

/// The greeting answered.
pub open spec fn greeting(vi: bool) -> Seq<char> {
    if vi {
        "Xin chào chủ nhân! Pappap AI Chain SNN đã sẵn sàng. Bộ não em đang có 112384 nơ-ron sống vì anh/chị!"@
    } else {
        "Hello master! Pappap AI Chain SNN is ready. My brain has 112384 living neurons for you!"@
    }
}

/// Whether some character of `text` is at or beyond 0xC0.
pub fn has_marked_letter_exec(text: &str) -> (r: bool)
    ensures
        r == has_marked_letter(text@),
{
    let n = text.unicode_len();
    for i in 0..n
        invariant
            n == text@.len(),
            forall|j: int| 0 <= j < i ==> (text@[j] as u32) < 0xC0,
    {
        let c = text.get_char(i);
        if c as u32 >= 0xC0 {
            return true;
        }
    }
    false
}

/// Whether `lowered` holds one of the Vietnamese marker words.
pub fn has_vietnamese_word_exec(lowered: &str) -> (r: bool)
    ensures
        r == has_vietnamese_word(lowered@),
        is_ascii_text(lowered@) ==> r == (contains_chars(lowered@, "xin"@) || contains_chars(
            lowered@,
            "em"@,
        ) || contains_chars(lowered@, "anh"@)),
{
    proof {
        lemma_ascii_marker_words(lowered@);
    }
    text_contains(lowered, "chào") || text_contains(lowered, "xin") || text_contains(lowered, "em")
        || text_contains(lowered, "anh") || text_contains(lowered, "ơi") || text_contains(
        lowered,
        "nhé",
    ) || text_contains(lowered, "Việt") || text_contains(lowered, "tôi") || text_contains(
        lowered,
        "là",
    ) || text_contains(lowered, "á") || text_contains(lowered, "ừ") || text_contains(lowered, "dạ")
}

/// Decides the language from the text and its lowercase form.
pub fn detect_vietnamese(text: &str, lowered: &str) -> (r: bool)
    ensures
        r == is_vietnamese(text@, lowered@),
{
    has_marked_letter_exec(text) || has_vietnamese_word_exec(lowered)
}

/// The language code and greeting for the detected language.
pub fn greeting_reply(vi: bool) -> (r: (String, String))
    ensures
        r.0@ == language_code(vi),
        r.1@ == greeting(vi),
{
    if vi {
        (
            "vi".to_owned(),
            "Xin chào chủ nhân! Pappap AI Chain SNN đã sẵn sàng. Bộ não em đang có 112384 nơ-ron sống vì anh/chị!".to_owned(),
        )
    } else {
        (
            "en".to_owned(),
            "Hello master! Pappap AI Chain SNN is ready. My brain has 112384 living neurons for you!".to_owned(),
        )
    }
}

/// `w` occurs in `a`, then also in `a + b` and in `b + a`.
proof fn lemma_contains_extends(a: Seq<char>, b: Seq<char>, w: Seq<char>)
    ensures
        contains_chars(a, w) ==> contains_chars(a + b, w) && contains_chars(b + a, w),
{
    if contains_chars(a, w) {
        let i = choose|i: int| crate::text::occurs_at(a, w, i);
        assert((a + b).subrange(i, i + w.len()) =~= a.subrange(i, i + w.len()));
        assert(crate::text::occurs_at(a + b, w, i));
        assert((b + a).subrange(b.len() + i, b.len() + i + w.len()) =~= a.subrange(i, i + w.len()));
        assert(crate::text::occurs_at(b + a, w, b.len() + i));
    }
}

proof fn lemma_word_extends(a: Seq<char>, b: Seq<char>)
    ensures
        has_vietnamese_word(a) ==> has_vietnamese_word(a + b) && has_vietnamese_word(b + a),
{
    lemma_contains_extends(a, b, "chào"@);
    lemma_contains_extends(a, b, "xin"@);
    lemma_contains_extends(a, b, "em"@);
    lemma_contains_extends(a, b, "anh"@);
    lemma_contains_extends(a, b, "ơi"@);
    lemma_contains_extends(a, b, "nhé"@);
    lemma_contains_extends(a, b, "Việt"@);
    lemma_contains_extends(a, b, "tôi"@);
    lemma_contains_extends(a, b, "là"@);
    lemma_contains_extends(a, b, "á"@);
    lemma_contains_extends(a, b, "ừ"@);
    lemma_contains_extends(a, b, "dạ"@);
}

/// More text never turns a Vietnamese verdict into English: if `t` is taken for
/// Vietnamese, so are `t + u` and `u + t`. The hypotheses are what lowercasing gives
/// for the longer texts, which `detect_and_translate` states of every text it reads.
pub proof fn vietnamese_verdict_survives_more_text(t: Seq<char>, u: Seq<char>)
    requires
        !has_marked_letter(t) ==> lowercase_chars(t) == ascii_lowered(t),
        !has_marked_letter(t + u) ==> lowercase_chars(t + u) == ascii_lowered(t + u),
        !has_marked_letter(u + t) ==> lowercase_chars(u + t) == ascii_lowered(u + t),
        is_vietnamese(t, lowercase_chars(t)),
    ensures
        is_vietnamese(t + u, lowercase_chars(t + u)),
        is_vietnamese(u + t, lowercase_chars(u + t)),
{
    if has_marked_letter(t) {
        let i = choose|i: int| 0 <= i < t.len() && (t[i] as u32) >= 0xC0;
        assert((t + u)[i] == t[i]);
        assert((u + t)[u.len() + i] == t[i]);
        assert(has_marked_letter(t + u));
        assert(has_marked_letter(u + t));
    } else {
        lemma_word_extends(ascii_lowered(t), ascii_lowered(u));
        if !has_marked_letter(t + u) {
            assert(ascii_lowered(t + u) =~= ascii_lowered(t) + ascii_lowered(u));
        }
        if !has_marked_letter(u + t) {
            assert(ascii_lowered(u + t) =~= ascii_lowered(u) + ascii_lowered(t));
        }
    }
}

/// Every character of `s` is ASCII (below 0x80).
pub open spec fn is_ascii_text(s: Seq<char>) -> bool {
    forall|i: int| 0 <= i < s.len() ==> (#[trigger] s[i] as u32) < 0x80
}

/// An ASCII text cannot contain a word with a non-ASCII character.
proof fn lemma_ascii_excludes(l: Seq<char>, w: Seq<char>, k: int)
    requires
        is_ascii_text(l),
        0 <= k < w.len(),
        (w[k] as u32) >= 0x80,
    ensures
        !contains_chars(l, w),
{
    if contains_chars(l, w) {
        let i = choose|i: int| crate::text::occurs_at(l, w, i);
        assert(l.subrange(i, i + w.len())[k] == l[i + k]);
        assert((l[i + k] as u32) < 0x80);
    }
}

/// In an ASCII text, the marker words that can occur are the ASCII ones: `xin`,
/// `em` and `anh`.
proof fn lemma_ascii_marker_words(l: Seq<char>)
    ensures
        is_ascii_text(l) ==> (has_vietnamese_word(l) == (contains_chars(l, "xin"@) || contains_chars(
            l,
            "em"@,
        ) || contains_chars(l, "anh"@))),
{
    if is_ascii_text(l) {
        reveal_strlit("chào");
        reveal_strlit("ơi");
        reveal_strlit("nhé");
        reveal_strlit("Việt");
        reveal_strlit("tôi");
        reveal_strlit("là");
        reveal_strlit("á");
        reveal_strlit("ừ");
        reveal_strlit("dạ");
        lemma_ascii_excludes(l, "chào"@, 2);
        lemma_ascii_excludes(l, "ơi"@, 0);
        lemma_ascii_excludes(l, "nhé"@, 2);
        lemma_ascii_excludes(l, "Việt"@, 2);
        lemma_ascii_excludes(l, "tôi"@, 1);
        lemma_ascii_excludes(l, "là"@, 1);
        lemma_ascii_excludes(l, "á"@, 0);
        lemma_ascii_excludes(l, "ừ"@, 0);
        lemma_ascii_excludes(l, "dạ"@, 1);
    }
}

/// For an ASCII text (so without marked letters), the verdict rests on three words
/// alone: it is Vietnamese exactly when the lowercase form, itself ASCII, contains
/// `xin`, `em` or `anh`. A text with none of them, such as `good morning`, is English.
pub proof fn ascii_text_verdict(t: Seq<char>, lowered: Seq<char>)
    requires
        is_ascii_text(t),
        is_ascii_text(lowered),
    ensures
        is_vietnamese(t, lowered) == (contains_chars(lowered, "xin"@) || contains_chars(
            lowered,
            "em"@,
        ) || contains_chars(lowered, "anh"@)),
        !contains_chars(lowered, "xin"@) && !contains_chars(lowered, "em"@) && !contains_chars(
            lowered,
            "anh"@,
        ) ==> language_code(is_vietnamese(t, lowered)) == "en"@,
{
    lemma_ascii_marker_words(lowered);
    assert(!has_marked_letter(t)) by {
        if has_marked_letter(t) {
            let i = choose|i: int| 0 <= i < t.len() && (t[i] as u32) >= 0xC0;
            assert((t[i] as u32) < 0x80);
        }
    }
}

/// The lowercase form of an ASCII text is ASCII: lowering moves `A`..=`Z` to
/// `a`..=`z` and leaves every other character.
pub proof fn ascii_lowering_stays_ascii(t: Seq<char>)
    requires
        is_ascii_text(t),
    ensures
        is_ascii_text(ascii_lowered(t)),
        ascii_lowered(t).len() == t.len(),
{
    assert forall|i: int| 0 <= i < ascii_lowered(t).len() implies (#[trigger] ascii_lowered(t)[i] as u32) < 0x80 by {
        assert((t[i] as u32) < 0x80);
    }
}

} // verus!
