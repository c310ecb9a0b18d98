//! The Bengali script.

use vstd::prelude::*;
use crate::engine::rewrite;
use crate::profile::Profile;
use crate::profile::ScriptProfile;
use crate::symbol::Symbol;
use crate::table::enter_consonant;
use crate::table::enter_independent;

verus! {

/// The identifier of the script.
pub const NAME: &'static str = "bengali";

/// The first codepoint of the Bengali block.
pub const BLOCK_FIRST: char = '\u{0980}';

/// The last codepoint of the Bengali block.
pub const BLOCK_LAST: char = '\u{09ff}';

/// Whether a codepoint lies in the Bengali block.
pub open spec fn in_block(c: char) -> bool {
    BLOCK_FIRST <= c <= BLOCK_LAST
}

/// The Roman form of a vowel letter.
pub open spec fn vowel(c: char) -> Option<Seq<char>> {
    match c {
        'অ' => Some("a"@),
        'আ' => Some("ā"@),
        'ই' => Some("i"@),
        'ঈ' => Some("ī"@),
        'উ' => Some("u"@),
        'ঊ' => Some("ū"@),
        'ঋ' => Some("ṛ"@),
        'ৠ' => Some("ṝ"@),
        'ঌ' => Some("ḷ"@),
        'ৡ' => Some("ḹ"@),
        'এ' => Some("e"@),
        'ঐ' => Some("ai"@),
        'ও' => Some("o"@),
        'ঔ' => Some("au"@),
        _ => None,
    }
}

/// The Roman form of a vowel sign, or of a mark of nasalisation or
/// aspiration.
pub open spec fn mark(c: char) -> Option<Seq<char>> {
    match c {
        'া' => Some("ā"@),
        'ি' => Some("i"@),
        'ী' => Some("ī"@),
        'ু' => Some("u"@),
        'ূ' => Some("ū"@),
        'ৃ' => Some("ṛ"@),
        'ৄ' => Some("ṝ"@),
        'ৢ' => Some("ḷ"@),
        'ৣ' => Some("ḹ"@),
        'ে' => Some("e"@),
        'ৈ' => Some("ai"@),
        'ো' => Some("o"@),
        'ৌ' => Some("au"@),
        'ং' => Some("ṃ"@),
        'ঃ' => Some("ḥ"@),
        'ঁ' => Some("m̐"@),
        _ => None,
    }
}

/// The full Roman form of a consonant letter.
pub open spec fn consonant(c: char) -> Option<Seq<char>> {
    match c {
        'ক' => Some("ka"@),
        'খ' => Some("kha"@),
        'গ' => Some("ga"@),
        'ঘ' => Some("gha"@),
        'ঙ' => Some("ṅa"@),
        'চ' => Some("ca"@),
        'ছ' => Some("cha"@),
        'জ' => Some("ja"@),
        'ঝ' => Some("jha"@),
        'ঞ' => Some("ña"@),
        'ট' => Some("ṭa"@),
        'ঠ' => Some("ṭha"@),
        'ড' => Some("ḍa"@),
        'ঢ' => Some("ḍha"@),
        'ণ' => Some("ṇa"@),
        'ত' => Some("ta"@),
        'থ' => Some("tha"@),
        'দ' => Some("da"@),
        'ধ' => Some("dha"@),
        'ন' => Some("na"@),
        'প' => Some("pa"@),
        'ফ' => Some("pha"@),
        'ব' => Some("ba"@),
        'ভ' => Some("bha"@),
        'ম' => Some("ma"@),
        'য' => Some("ya"@),
        'র' => Some("ra"@),
        'ল' => Some("la"@),
        'শ' => Some("śa"@),
        'ষ' => Some("ṣa"@),
        'স' => Some("sa"@),
        'হ' => Some("ha"@),
        _ => None,
    }
}

/// The vowel letters, each an independent text.
pub open spec fn vowels() -> Map<char, Symbol> {
    Map::new(|c: char| vowel(c) is Some, |c: char| Symbol::Independent(vowel(c)->0))
}

/// The vowel signs and the other dependent marks, each an independent text.
pub open spec fn marks() -> Map<char, Symbol> {
    Map::new(|c: char| mark(c) is Some, |c: char| Symbol::Independent(mark(c)->0))
}

/// The consonant letters, each a consonant syllable.
pub open spec fn consonants() -> Map<char, Symbol> {
    Map::new(
        |c: char| consonant(c) is Some,
        |c: char| Symbol::ConsonantSyllable(consonant(c)->0),
    )
}

/// What each codepoint that Bengali knows stands for.
pub open spec fn symbols() -> Map<char, Symbol> {
    vowels().union_prefer_right(marks()).union_prefer_right(consonants())
}

/// The description of Bengali as a mathematical value.
pub open spec fn spec_profile() -> Profile {
    Profile {
        name: NAME@,
        symbols: symbols(),
        killers: Set::empty(),
        conjuncts: Map::empty(),
    }
}

/// Enters the vowel letters.
fn enter_vowels(profile: &mut ScriptProfile)
    requires
        old(profile)@.killers.is_empty(),
    ensures
        final(profile)@ == (Profile {
            symbols: old(profile)@.symbols.union_prefer_right(vowels()),
            ..old(profile)@
        }),
{
    enter_independent(profile, 'অ', "a");
    enter_independent(profile, 'আ', "ā");
    enter_independent(profile, 'ই', "i");
    enter_independent(profile, 'ঈ', "ī");
    enter_independent(profile, 'উ', "u");
    enter_independent(profile, 'ঊ', "ū");
    enter_independent(profile, 'ঋ', "ṛ");
    enter_independent(profile, 'ৠ', "ṝ");
    enter_independent(profile, 'ঌ', "ḷ");
    enter_independent(profile, 'ৡ', "ḹ");
    enter_independent(profile, 'এ', "e");
    enter_independent(profile, 'ঐ', "ai");
    enter_independent(profile, 'ও', "o");
    enter_independent(profile, 'ঔ', "au");
    assert(profile@.symbols =~= old(profile)@.symbols.union_prefer_right(vowels()));
}

/// Enters the vowel signs and the other dependent marks.
fn enter_marks(profile: &mut ScriptProfile)
    requires
        old(profile)@.killers.is_empty(),
    ensures
        final(profile)@ == (Profile {
            symbols: old(profile)@.symbols.union_prefer_right(marks()),
            ..old(profile)@
        }),
{
    enter_independent(profile, 'া', "ā");
    enter_independent(profile, 'ি', "i");
    enter_independent(profile, 'ী', "ī");
    enter_independent(profile, 'ু', "u");
    enter_independent(profile, 'ূ', "ū");
    enter_independent(profile, 'ৃ', "ṛ");
    enter_independent(profile, 'ৄ', "ṝ");
    enter_independent(profile, 'ৢ', "ḷ");
    enter_independent(profile, 'ৣ', "ḹ");
    enter_independent(profile, 'ে', "e");
    enter_independent(profile, 'ৈ', "ai");
    enter_independent(profile, 'ো', "o");
    enter_independent(profile, 'ৌ', "au");
    enter_independent(profile, 'ং', "ṃ");
    enter_independent(profile, 'ঃ', "ḥ");
    enter_independent(profile, 'ঁ', "m̐");
    assert(profile@.symbols =~= old(profile)@.symbols.union_prefer_right(marks()));
}

/// Enters the consonant letters.
fn enter_consonants(profile: &mut ScriptProfile)
    requires
        old(profile)@.killers.is_empty(),
    ensures
        final(profile)@ == (Profile {
            symbols: old(profile)@.symbols.union_prefer_right(consonants()),
            ..old(profile)@
        }),
{
    proof {
        reveal_strlit("ka");
        reveal_strlit("kha");
        reveal_strlit("ga");
        reveal_strlit("gha");
        reveal_strlit("ṅa");
        reveal_strlit("ca");
        reveal_strlit("cha");
        reveal_strlit("ja");
        reveal_strlit("jha");
        reveal_strlit("ña");
        reveal_strlit("ṭa");
        reveal_strlit("ṭha");
        reveal_strlit("ḍa");
        reveal_strlit("ḍha");
        reveal_strlit("ṇa");
        reveal_strlit("ta");
        reveal_strlit("tha");
        reveal_strlit("da");
        reveal_strlit("dha");
        reveal_strlit("na");
        reveal_strlit("pa");
        reveal_strlit("pha");
        reveal_strlit("ba");
        reveal_strlit("bha");
        reveal_strlit("ma");
        reveal_strlit("ya");
        reveal_strlit("ra");
        reveal_strlit("la");
        reveal_strlit("śa");
        reveal_strlit("ṣa");
        reveal_strlit("sa");
        reveal_strlit("ha");
    }
    enter_consonant(profile, 'ক', "ka");
    enter_consonant(profile, 'খ', "kha");
    enter_consonant(profile, 'গ', "ga");
    enter_consonant(profile, 'ঘ', "gha");
    enter_consonant(profile, 'ঙ', "ṅa");
    enter_consonant(profile, 'চ', "ca");
    enter_consonant(profile, 'ছ', "cha");
    enter_consonant(profile, 'জ', "ja");
    enter_consonant(profile, 'ঝ', "jha");
    enter_consonant(profile, 'ঞ', "ña");
    enter_consonant(profile, 'ট', "ṭa");
    enter_consonant(profile, 'ঠ', "ṭha");
    enter_consonant(profile, 'ড', "ḍa");
    enter_consonant(profile, 'ঢ', "ḍha");
    enter_consonant(profile, 'ণ', "ṇa");
    enter_consonant(profile, 'ত', "ta");
    enter_consonant(profile, 'থ', "tha");
    enter_consonant(profile, 'দ', "da");
    enter_consonant(profile, 'ধ', "dha");
    enter_consonant(profile, 'ন', "na");
    enter_consonant(profile, 'প', "pa");
    enter_consonant(profile, 'ফ', "pha");
    enter_consonant(profile, 'ব', "ba");
    enter_consonant(profile, 'ভ', "bha");
    enter_consonant(profile, 'ম', "ma");
    enter_consonant(profile, 'য', "ya");
    enter_consonant(profile, 'র', "ra");
    enter_consonant(profile, 'ল', "la");
    enter_consonant(profile, 'শ', "śa");
    enter_consonant(profile, 'ষ', "ṣa");
    enter_consonant(profile, 'স', "sa");
    enter_consonant(profile, 'হ', "ha");
    assert(profile@.symbols =~= old(profile)@.symbols.union_prefer_right(consonants()));
}

/// The description of Bengali.
pub fn profile() -> (profile: ScriptProfile)
    ensures
        profile@ == spec_profile(),
{
    let mut profile = ScriptProfile::new(NAME);
    enter_vowels(&mut profile);
    enter_marks(&mut profile);
    enter_consonants(&mut profile);
    assert(profile@.symbols =~= symbols());
    profile
}

/// Transliterates a text from Bengali.
pub fn transliterate(text: &str) -> (out: String)
    ensures
        out@ == rewrite(spec_profile(), text@),
{
    profile().transliterate(text)
}

/// The description meets the rules of its data: every consonant syllable
/// ends in the inherent vowel.
pub proof fn lemma_well_formed()
    ensures
        spec_profile().wf(),
{
    reveal_strlit("ka");
    reveal_strlit("kha");
    reveal_strlit("ga");
    reveal_strlit("gha");
    reveal_strlit("ṅa");
    reveal_strlit("ca");
    reveal_strlit("cha");
    reveal_strlit("ja");
    reveal_strlit("jha");
    reveal_strlit("ña");
    reveal_strlit("ṭa");
    reveal_strlit("ṭha");
    reveal_strlit("ḍa");
    reveal_strlit("ḍha");
    reveal_strlit("ṇa");
    reveal_strlit("ta");
    reveal_strlit("tha");
    reveal_strlit("da");
    reveal_strlit("dha");
    reveal_strlit("na");
    reveal_strlit("pa");
    reveal_strlit("pha");
    reveal_strlit("ba");
    reveal_strlit("bha");
    reveal_strlit("ma");
    reveal_strlit("ya");
    reveal_strlit("ra");
    reveal_strlit("la");
    reveal_strlit("śa");
    reveal_strlit("ṣa");
    reveal_strlit("sa");
    reveal_strlit("ha");
}

/// The description speaks of codepoints of the Bengali block only.
pub proof fn lemma_keeps_to_block(c: char)
    ensures
        spec_profile().mentions(c) ==> in_block(c),
{
}

/// No codepoint of a text that the description writes lies in the Bengali
/// block.
proof fn lemma_writes_outside_block(c: char, i: int)
    requires
        symbols().contains_key(c),
        0 <= i < symbols()[c].text().len(),
    ensures
        !in_block(symbols()[c].text()[i]),
{
    reveal_strlit("a");
    reveal_strlit("ā");
    reveal_strlit("i");
    reveal_strlit("ī");
    reveal_strlit("u");
    reveal_strlit("ū");
    reveal_strlit("ṛ");
    reveal_strlit("ṝ");
    reveal_strlit("ḷ");
    reveal_strlit("ḹ");
    reveal_strlit("e");
    reveal_strlit("ai");
    reveal_strlit("o");
    reveal_strlit("au");
    reveal_strlit("ṃ");
    reveal_strlit("ḥ");
    reveal_strlit("m̐");
    reveal_strlit("ka");
    reveal_strlit("kha");
    reveal_strlit("ga");
    reveal_strlit("gha");
    reveal_strlit("ṅa");
    reveal_strlit("ca");
    reveal_strlit("cha");
    reveal_strlit("ja");
    reveal_strlit("jha");
    reveal_strlit("ña");
    reveal_strlit("ṭa");
    reveal_strlit("ṭha");
    reveal_strlit("ḍa");
    reveal_strlit("ḍha");
    reveal_strlit("ṇa");
    reveal_strlit("ta");
    reveal_strlit("tha");
    reveal_strlit("da");
    reveal_strlit("dha");
    reveal_strlit("na");
    reveal_strlit("pa");
    reveal_strlit("pha");
    reveal_strlit("ba");
    reveal_strlit("bha");
    reveal_strlit("ma");
    reveal_strlit("ya");
    reveal_strlit("ra");
    reveal_strlit("la");
    reveal_strlit("śa");
    reveal_strlit("ṣa");
    reveal_strlit("sa");
    reveal_strlit("ha");
}

/// What the description writes is made of codepoints that it says nothing
/// about.
pub proof fn lemma_closed()
    ensures
        spec_profile().is_closed(),
{
    let profile = spec_profile();
    assert forall|c: char| #[trigger] profile.symbols.contains_key(c) implies profile.is_foreign(
        profile.symbols[c].text(),
    ) by {
        let text = profile.symbols[c].text();
        assert forall|i: int| 0 <= i < text.len() implies !profile.mentions(#[trigger] text[i]) by {
            lemma_writes_outside_block(c, i);
            lemma_keeps_to_block(text[i]);
        }
    }
}

} // verus!
