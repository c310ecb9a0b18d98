//! The Tamil script.

use vstd::prelude::*;
use crate::engine::rewrite;
use crate::profile::Profile;
use crate::profile::ScriptProfile;
use crate::symbol::Symbol;
use crate::table::enter_consonant;
use crate::table::enter_independent;

verus! {

/// The identifier of the script.
pub const NAME: &'static str = "tamil";

/// The first codepoint of the Tamil block.
pub const BLOCK_FIRST: char = '\u{0b80}';

/// The last codepoint of the Tamil block.
pub const BLOCK_LAST: char = '\u{0bff}';

/// Whether a codepoint lies in the Tamil block.
pub open spec fn in_block(c: char) -> bool {
    BLOCK_FIRST <= c <= BLOCK_LAST
}

/// The Roman form of a vowel letter.
pub open spec fn vowel(c: char) -> Option<Seq<char>> {
    match c {
        'அ' => Some("a"@),
        'ஆ' => Some("ā"@),
        'இ' => Some("i"@),
        'ஈ' => Some("ī"@),
        'உ' => Some("u"@),
        'ஊ' => Some("ū"@),
        'எ' => Some("e"@),
        'ஏ' => Some("ē"@),
        'ஐ' => Some("ai"@),
        'ஒ' => Some("o"@),
        'ஓ' => Some("ō"@),
        'ஔ' => Some("au"@),
        _ => None,
    }
}

/// The full Roman form of a consonant letter.
pub open spec fn consonant(c: char) -> Option<Seq<char>> {
    match c {
        'க' => Some("ka"@),
        'ங' => Some("ṅa"@),
        'ச' => Some("ca"@),
        'ஞ' => Some("ña"@),
        'ட' => Some("ṭa"@),
        'ண' => Some("ṇa"@),
        'த' => Some("ta"@),
        'ந' => Some("na"@),
        'ப' => Some("pa"@),
        'ம' => Some("ma"@),
        'ய' => Some("ya"@),
        'ர' => Some("ra"@),
        'ல' => Some("la"@),
        'வ' => Some("va"@),
        'ழ' => Some("ḻa"@),
        'ள' => Some("ḷa"@),
        'ற' => Some("ṟa"@),
        'ன' => Some("ṉa"@),
        _ => None,
    }
}

/// The vowel letters, each an independent text.
pub open spec fn vowels() -> Map<char, Symbol> {
    Map::new(|c: char| vowel(c) is Some, |c: char| Symbol::Independent(vowel(c)->0))
}

/// The consonant letters, each a consonant syllable.
pub open spec fn consonants() -> Map<char, Symbol> {
    Map::new(
        |c: char| consonant(c) is Some,
        |c: char| Symbol::ConsonantSyllable(consonant(c)->0),
    )
}

/// What each codepoint that Tamil knows stands for.
pub open spec fn symbols() -> Map<char, Symbol> {
    vowels().union_prefer_right(consonants())
}

/// The description of Tamil as a mathematical value.
pub open spec fn spec_profile() -> Profile {
    Profile {
        name: NAME@,
        symbols: symbols(),
        killers: Set::empty(),
        conjuncts: Map::empty(),
    }
}

/// Enters the vowel letters.
fn enter_vowels(profile: &mut ScriptProfile)
    requires
        old(profile)@.killers.is_empty(),
    ensures
        final(profile)@ == (Profile {
            symbols: old(profile)@.symbols.union_prefer_right(vowels()),
            ..old(profile)@
        }),
{
    enter_independent(profile, 'அ', "a");
    enter_independent(profile, 'ஆ', "ā");
    enter_independent(profile, 'இ', "i");
    enter_independent(profile, 'ஈ', "ī");
    enter_independent(profile, 'உ', "u");
    enter_independent(profile, 'ஊ', "ū");
    enter_independent(profile, 'எ', "e");
    enter_independent(profile, 'ஏ', "ē");
    enter_independent(profile, 'ஐ', "ai");
    enter_independent(profile, 'ஒ', "o");
    enter_independent(profile, 'ஓ', "ō");
    enter_independent(profile, 'ஔ', "au");
    assert(profile@.symbols =~= old(profile)@.symbols.union_prefer_right(vowels()));
}

/// Enters the consonant letters.
fn enter_consonants(profile: &mut ScriptProfile)
    requires
        old(profile)@.killers.is_empty(),
    ensures
        final(profile)@ == (Profile {
            symbols: old(profile)@.symbols.union_prefer_right(consonants()),
            ..old(profile)@
        }),
{
    proof {
        reveal_strlit("ka");
        reveal_strlit("ṅa");
        reveal_strlit("ca");
        reveal_strlit("ña");
        reveal_strlit("ṭa");
        reveal_strlit("ṇa");
        reveal_strlit("ta");
        reveal_strlit("na");
        reveal_strlit("pa");
        reveal_strlit("ma");
        reveal_strlit("ya");
        reveal_strlit("ra");
        reveal_strlit("la");
        reveal_strlit("va");
        reveal_strlit("ḻa");
        reveal_strlit("ḷa");
        reveal_strlit("ṟa");
        reveal_strlit("ṉa");
    }
    enter_consonant(profile, 'க', "ka");
    enter_consonant(profile, 'ங', "ṅa");
    enter_consonant(profile, 'ச', "ca");
    enter_consonant(profile, 'ஞ', "ña");
    enter_consonant(profile, 'ட', "ṭa");
    enter_consonant(profile, 'ண', "ṇa");
    enter_consonant(profile, 'த', "ta");
    enter_consonant(profile, 'ந', "na");
    enter_consonant(profile, 'ப', "pa");
    enter_consonant(profile, 'ம', "ma");
    enter_consonant(profile, 'ய', "ya");
    enter_consonant(profile, 'ர', "ra");
    enter_consonant(profile, 'ல', "la");
    enter_consonant(profile, 'வ', "va");
    enter_consonant(profile, 'ழ', "ḻa");
    enter_consonant(profile, 'ள', "ḷa");
    enter_consonant(profile, 'ற', "ṟa");
    enter_consonant(profile, 'ன', "ṉa");
    assert(profile@.symbols =~= old(profile)@.symbols.union_prefer_right(consonants()));
}

/// The description of Tamil.
pub fn profile() -> (profile: ScriptProfile)
    ensures
        profile@ == spec_profile(),
{
    let mut profile = ScriptProfile::new(NAME);
    enter_vowels(&mut profile);
    enter_consonants(&mut profile);
    assert(profile@.symbols =~= symbols());
    profile
}

/// Transliterates a text from Tamil.
pub fn transliterate(text: &str) -> (out: String)
    ensures
        out@ == rewrite(spec_profile(), text@),
{
    profile().transliterate(text)
}

/// The description meets the rules of its data: every consonant syllable
/// ends in the inherent vowel.
pub proof fn lemma_well_formed()
    ensures
        spec_profile().wf(),
{
    reveal_strlit("ka");
    reveal_strlit("ṅa");
    reveal_strlit("ca");
    reveal_strlit("ña");
    reveal_strlit("ṭa");
    reveal_strlit("ṇa");
    reveal_strlit("ta");
    reveal_strlit("na");
    reveal_strlit("pa");
    reveal_strlit("ma");
    reveal_strlit("ya");
    reveal_strlit("ra");
    reveal_strlit("la");
    reveal_strlit("va");
    reveal_strlit("ḻa");
    reveal_strlit("ḷa");
    reveal_strlit("ṟa");
    reveal_strlit("ṉa");
}

/// The description speaks of codepoints of the Tamil block only.
pub proof fn lemma_keeps_to_block(c: char)
    ensures
        spec_profile().mentions(c) ==> in_block(c),
{
}

/// No codepoint of a text that the description writes lies in the Tamil
/// block.
proof fn lemma_writes_outside_block(c: char, i: int)
    requires
        symbols().contains_key(c),
        0 <= i < symbols()[c].text().len(),
    ensures
        !in_block(symbols()[c].text()[i]),
{
    reveal_strlit("a");
    reveal_strlit("ā");
    reveal_strlit("i");
    reveal_strlit("ī");
    reveal_strlit("u");
    reveal_strlit("ū");
    reveal_strlit("e");
    reveal_strlit("ē");
    reveal_strlit("ai");
    reveal_strlit("o");
    reveal_strlit("ō");
    reveal_strlit("au");
    reveal_strlit("ka");
    reveal_strlit("ṅa");
    reveal_strlit("ca");
    reveal_strlit("ña");
    reveal_strlit("ṭa");
    reveal_strlit("ṇa");
    reveal_strlit("ta");
    reveal_strlit("na");
    reveal_strlit("pa");
    reveal_strlit("ma");
    reveal_strlit("ya");
    reveal_strlit("ra");
    reveal_strlit("la");
    reveal_strlit("va");
    reveal_strlit("ḻa");
    reveal_strlit("ḷa");
    reveal_strlit("ṟa");
    reveal_strlit("ṉa");
}

/// What the description writes is made of codepoints that it says nothing
/// about.
pub proof fn lemma_closed()
    ensures
        spec_profile().is_closed(),
{
    let profile = spec_profile();
    assert forall|c: char| #[trigger] profile.symbols.contains_key(c) implies profile.is_foreign(
        profile.symbols[c].text(),
    ) by {
        let text = profile.symbols[c].text();
        assert forall|i: int| 0 <= i < text.len() implies !profile.mentions(#[trigger] text[i]) by {
            lemma_writes_outside_block(c, i);
            lemma_keeps_to_block(text[i]);
        }
    }
}

} // verus!
