//! The rewrite of a text, codepoint by codepoint, under one script description.
//!
//! The text is read once from left to right. At each position the engine
//! looks at the codepoint there and at the one after it, never further and
//! never back. A consonant is written without its inherent vowel exactly
//! when the next codepoint is a vowel killer or an independent text of a
//! single output unit. The engine tells a vowel sign from a vowel letter by
//! that length alone: a description that gives a vowel letter, or a mark
//! such as the anusvara, a text of one character makes it act as a sign.

use vstd::prelude::*;
use crate::profile::CharClass;
use crate::profile::Profile;
use crate::profile::ScriptProfile;
use crate::symbol::INHERENT_VOWEL;
use crate::text::chars_of;
use crate::text::stem;
use crate::text::stem_of;

verus! {

/// Whether the codepoints at `i` and `i + 1` form a conjunct of the script.
pub open spec fn conjunct_at(profile: Profile, text: Seq<char>, i: int) -> bool {
    &&& 0 <= i
    &&& i + 1 < text.len()
    &&& profile.conjuncts.contains_key((text[i], text[i + 1]))
}

/// What the codepoint at `i` is written as, when it is taken by itself.
///
/// A vowel killer writes nothing. An independent text is written as it is.
/// A consonant loses its inherent vowel when a vowel sign or a vowel killer
/// follows it directly, and keeps it otherwise. Any other codepoint is
/// written unchanged.
pub open spec fn unit_at(profile: Profile, text: Seq<char>, i: int) -> Seq<char>
    recommends
        0 <= i < text.len(),
{
    let c = text[i];
    match profile.classify(c) {
        CharClass::VowelKiller => Seq::empty(),
        CharClass::Unmapped => seq![c],
        CharClass::Consonant => if i + 1 < text.len() && profile.suppresses(text[i + 1]) {
            stem(profile.symbols[c].text())
        } else {
            profile.symbols[c].text()
        },
        CharClass::Vowel => profile.symbols[c].text(),
        CharClass::VowelSign => profile.symbols[c].text(),
    }
}

/// What the text from position `i` on is written as: a conjunct at `i` is
/// written as one unit and takes two codepoints, anything else is written by
/// itself and takes one.
pub open spec fn rewrite_from(profile: Profile, text: Seq<char>, i: int) -> Seq<char>
    decreases text.len() - i,
{
    if i < 0 || i >= text.len() {
        Seq::empty()
    } else if conjunct_at(profile, text, i) {
        profile.conjuncts[(text[i], text[i + 1])] + rewrite_from(profile, text, i + 2)
    } else {
        unit_at(profile, text, i) + rewrite_from(profile, text, i + 1)
    }
}

/// What a text is written as under a script description.
pub open spec fn rewrite(profile: Profile, text: Seq<char>) -> Seq<char> {
    rewrite_from(profile, text, 0)
}

/// Writing a text from position `k + j` on is writing, from position `j` on,
/// the text without its first `k` codepoints.
proof fn lemma_rewrite_from_skip(profile: Profile, text: Seq<char>, k: int, j: int)
    requires
        0 <= k <= text.len(),
        0 <= j,
    ensures
        rewrite_from(profile, text.skip(k), j) == rewrite_from(profile, text, k + j),
    decreases text.len() - k - j,
{
    let tail = text.skip(k);
    if j < tail.len() {
        if conjunct_at(profile, tail, j) {
            lemma_rewrite_from_skip(profile, text, k, j + 2);
        } else {
            lemma_rewrite_from_skip(profile, text, k, j + 1);
        }
    }
}

/// Up to a codepoint that the script says nothing about, a text is written
/// as if it ended there.
proof fn lemma_rewrite_up_to_unmentioned(profile: Profile, text: Seq<char>, k: int, j: int)
    requires
        0 <= j <= k < text.len(),
        !profile.mentions(text[k]),
    ensures
        rewrite_from(profile, text, j) == rewrite_from(profile, text.take(k), j) + seq![text[k]]
            + rewrite_from(profile, text, k + 1),
    decreases k - j,
{
    if j < k {
        if conjunct_at(profile, text, j) {
            lemma_rewrite_up_to_unmentioned(profile, text, k, j + 2);
        } else {
            lemma_rewrite_up_to_unmentioned(profile, text, k, j + 1);
        }
    }
}

/// A codepoint that the script says nothing about is written unchanged at
/// its place: the output is what stands before it, written by itself, then
/// the codepoint, then what stands after it, written by itself.
pub proof fn lemma_unmentioned_passes_through(profile: Profile, text: Seq<char>, i: int)
    requires
        0 <= i < text.len(),
        !profile.mentions(text[i]),
    ensures
        rewrite(profile, text) == rewrite(profile, text.take(i)) + seq![text[i]] + rewrite(
            profile,
            text.skip(i + 1),
        ),
{
    lemma_rewrite_up_to_unmentioned(profile, text, i, 0);
    lemma_rewrite_from_skip(profile, text, i + 1, 0);
}

/// From any position on, a text of which the script knows nothing is written
/// unchanged.
proof fn lemma_foreign_from(profile: Profile, text: Seq<char>, j: int)
    requires
        profile.is_foreign(text),
        0 <= j <= text.len(),
    ensures
        rewrite_from(profile, text, j) == text.skip(j),
    decreases text.len() - j,
{
    if j < text.len() {
        lemma_foreign_from(profile, text, j + 1);
    }
}

/// A text of which the script knows no codepoint is written unchanged.
pub proof fn lemma_foreign_text_unchanged(profile: Profile, text: Seq<char>)
    requires
        profile.is_foreign(text),
    ensures
        rewrite(profile, text) == text,
{
    lemma_foreign_from(profile, text, 0);
}

/// The description that knows no codepoint writes every text unchanged.
pub proof fn lemma_empty_description_changes_nothing(name: Seq<char>, text: Seq<char>)
    ensures
        rewrite(Profile::empty(name), text) == text,
{
    lemma_foreign_text_unchanged(Profile::empty(name), text);
}

/// Two texts of which the script knows nothing make, one after the other, a
/// text of which it knows nothing.
proof fn lemma_foreign_concat(profile: Profile, a: Seq<char>, b: Seq<char>)
    requires
        profile.is_foreign(a),
        profile.is_foreign(b),
    ensures
        profile.is_foreign(a + b),
{
    assert forall|i: int| 0 <= i < (a + b).len() implies !profile.mentions(
        #[trigger] (a + b)[i],
    ) by {
        if i < a.len() {
            assert((a + b)[i] == a[i]);
        } else {
            assert((a + b)[i] == b[i - a.len()]);
        }
    }
}

/// What a closed description writes for one codepoint is made of codepoints
/// that it says nothing about.
proof fn lemma_unit_is_foreign(profile: Profile, text: Seq<char>, i: int)
    requires
        profile.is_closed(),
        0 <= i < text.len(),
    ensures
        profile.is_foreign(unit_at(profile, text, i)),
{
    let c = text[i];
    let unit = unit_at(profile, text, i);
    if profile.classify(c) == CharClass::Unmapped {
        // No conjunct has an unmapped half, so nothing is said about `c`.
        assert forall|d: char|
            !(#[trigger] profile.conjuncts.contains_key((c, d)))
            && !profile.conjuncts.contains_key((d, c)) by {}
    } else if profile.classify(c) != CharClass::VowelKiller {
        // The unit is the text of `c` or that text without its last
        // codepoint.
        let full = profile.symbols[c].text();
        assert forall|j: int| 0 <= j < unit.len() implies !profile.mentions(#[trigger] unit[j]) by {
            assert(unit[j] == full[j]);
        }
    }
}

/// What a closed description writes is made of codepoints that it says
/// nothing about.
proof fn lemma_output_is_foreign_from(profile: Profile, text: Seq<char>, j: int)
    requires
        profile.is_closed(),
    ensures
        profile.is_foreign(rewrite_from(profile, text, j)),
    decreases text.len() - j,
{
    if 0 <= j < text.len() {
        if conjunct_at(profile, text, j) {
            lemma_output_is_foreign_from(profile, text, j + 2);
            lemma_foreign_concat(
                profile,
                profile.conjuncts[(text[j], text[j + 1])],
                rewrite_from(profile, text, j + 2),
            );
        } else {
            lemma_unit_is_foreign(profile, text, j);
            lemma_output_is_foreign_from(profile, text, j + 1);
            lemma_foreign_concat(
                profile,
                unit_at(profile, text, j),
                rewrite_from(profile, text, j + 1),
            );
        }
    }
}

/// What a closed description writes is made of codepoints that it says
/// nothing about.
pub proof fn lemma_output_is_foreign(profile: Profile, text: Seq<char>)
    requires
        profile.is_closed(),
    ensures
        profile.is_foreign(rewrite(profile, text)),
{
    lemma_output_is_foreign_from(profile, text, 0);
}

/// Under a closed description, writing what was written changes nothing more.
pub proof fn lemma_rewrite_idempotent(profile: Profile, text: Seq<char>)
    requires
        profile.is_closed(),
    ensures
        rewrite(profile, rewrite(profile, text)) == rewrite(profile, text),
{
    lemma_output_is_foreign(profile, text);
    lemma_foreign_text_unchanged(profile, rewrite(profile, text));
}

/// A consonant that stands alone is written in its full form.
pub proof fn lemma_lone_consonant(profile: Profile, c: char)
    requires
        profile.classify(c) == CharClass::Consonant,
    ensures
        rewrite(profile, seq![c]) == profile.symbols[c].text(),
{
    reveal_with_fuel(rewrite_from, 2);
}

/// A consonant and then a vowel sign: the consonant loses its inherent vowel
/// and the sign is written after it.
pub proof fn lemma_consonant_with_sign(profile: Profile, c: char, sign: char)
    requires
        profile.classify(c) == CharClass::Consonant,
        profile.classify(sign) == CharClass::VowelSign,
        !profile.conjuncts.contains_key((c, sign)),
    ensures
        rewrite(profile, seq![c, sign]) == stem(profile.symbols[c].text())
            + profile.symbols[sign].text(),
{
    reveal_with_fuel(rewrite_from, 3);
}

/// A consonant and then a vowel killer: the consonant is written without
/// its inherent vowel, and nothing else.
pub proof fn lemma_consonant_with_killer(profile: Profile, c: char, killer: char)
    requires
        profile.classify(c) == CharClass::Consonant,
        profile.classify(killer) == CharClass::VowelKiller,
        !profile.conjuncts.contains_key((c, killer)),
    ensures
        rewrite(profile, seq![c, killer]) == stem(profile.symbols[c].text()),
{
    reveal_with_fuel(rewrite_from, 3);
}

/// A pair that the script knows as a conjunct is written as the text of the
/// conjunct, whatever the two codepoints stand for by themselves.
pub proof fn lemma_conjunct_pair(profile: Profile, first: char, second: char)
    requires
        profile.conjuncts.contains_key((first, second)),
    ensures
        rewrite(profile, seq![first, second]) == profile.conjuncts[(first, second)],
{
    reveal_with_fuel(rewrite_from, 2);
}

/// Two consonants with nothing between them: each keeps its inherent vowel.
pub proof fn lemma_two_consonants(profile: Profile, first: char, second: char)
    requires
        profile.classify(first) == CharClass::Consonant,
        profile.classify(second) == CharClass::Consonant,
        !profile.conjuncts.contains_key((first, second)),
    ensures
        rewrite(profile, seq![first, second]) == profile.symbols[first].text()
            + profile.symbols[second].text(),
{
    reveal_with_fuel(rewrite_from, 3);
}

/// In a well-formed description, the full form of a consonant is what is
/// left of it without the inherent vowel, and then the inherent vowel.
pub proof fn lemma_stem_of_consonant(profile: Profile, c: char)
    requires
        profile.wf(),
        profile.classify(c) == CharClass::Consonant,
    ensures
        profile.symbols[c].text() == stem(profile.symbols[c].text()).push(INHERENT_VOWEL),
{
    assert(profile.symbols[c].wf());
}

impl ScriptProfile {
    /// Appends to `out` what the codepoint at `i` is written as, when it is
    /// taken by itself.
    fn write_unit(&self, chars: &[char], i: usize, out: &mut String)
        requires
            i < chars@.len(),
        ensures
            final(out)@ == old(out)@ + unit_at(self@, chars@, i as int),
    {
        let c: char = chars[i];
        if !self.is_killer(c) {
            match self.lookup(c) {
                None => {
                    out.push(c);
                },
                Some(entry) => {
                    let bare: bool = entry.is_consonant() && i + 1 < chars.len()
                        && self.suppresses(chars[i + 1]);
                    if bare {
                        out.append(stem_of(entry.text()));
                    } else {
                        out.append(entry.text());
                    }
                },
            }
        }
    }

    /// Writes a sequence of codepoints under this script description.
    pub fn rewrite_chars(&self, chars: &[char]) -> (out: String)
        ensures
            out@ == rewrite(self@, chars@),
    {
        let n: usize = chars.len();
        let mut out: String = String::new();
        let mut i: usize = 0;
        while i < n
            invariant
                i <= n,
                n == chars@.len(),
                out@ + rewrite_from(self@, chars@, i as int) == rewrite(self@, chars@),
            decreases n - i,
        {
            let pair: Option<&str> = if i + 1 < n {
                self.conjunct(chars[i], chars[i + 1])
            } else {
                None
            };
            match pair {
                Some(text) => {
                    out.append(text);
                    i += 2;
                },
                None => {
                    self.write_unit(chars, i, &mut out);
                    i += 1;
                },
            }
        }
        out
    }

    /// Writes a text under this script description.
    pub fn transliterate(&self, text: &str) -> (out: String)
        ensures
            out@ == rewrite(self@, text@),
    {
        let chars: Vec<char> = chars_of(text);
        self.rewrite_chars(chars.as_slice())
    }
}

} // verus!
