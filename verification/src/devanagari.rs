//! The Devanagari script.

use vstd::prelude::*;
use crate::engine::rewrite;
use crate::profile::Profile;
use crate::profile::ScriptProfile;
use crate::symbol::Symbol;
use crate::table::enter_consonant;
use crate::table::enter_independent;
use crate::table::enter_killer;

verus! {

/// The identifier of the script.
pub const NAME: &'static str = "devanagari";

/// The virama: it removes the inherent vowel of the consonant before it.
pub const VIRAMA: char = '्';

/// The first codepoint of the Devanagari block.
pub const BLOCK_FIRST: char = '\u{0900}';

/// The last codepoint of the Devanagari block.
pub const BLOCK_LAST: char = '\u{097f}';

/// Whether a codepoint lies in the Devanagari block.
pub open spec fn in_block(c: char) -> bool {
    BLOCK_FIRST <= c <= BLOCK_LAST
}

/// The Roman form of a vowel letter.
pub open spec fn vowel(c: char) -> Option<Seq<char>> {
    match c {
        'अ' => Some("a"@),
        'आ' => Some("ā"@),
        'इ' => Some("i"@),
        'ई' => Some("ī"@),
        'उ' => Some("u"@),
        'ऊ' => Some("ū"@),
        'ऋ' => Some("ṛ"@),
        'ॠ' => Some("ṝ"@),
        'ऌ' => Some("ḷ"@),
        'ॡ' => Some("ḹ"@),
        'ए' => Some("e"@),
        'ऐ' => Some("ai"@),
        'ओ' => Some("o"@),
        'औ' => Some("au"@),
        _ => None,
    }
}

/// The Roman form of a vowel sign, or of a mark of nasalisation or
/// aspiration.
pub open spec fn mark(c: char) -> Option<Seq<char>> {
    match c {
        'ा' => Some("ā"@),
        'ि' => Some("i"@),
        'ी' => Some("ī"@),
        'ु' => Some("u"@),
        'ू' => Some("ū"@),
        'ृ' => Some("ṛ"@),
        'ॄ' => Some("ṝ"@),
        'ॢ' => Some("ḷ"@),
        'ॣ' => Some("ḹ"@),
        'े' => Some("e"@),
        'ै' => Some("ai"@),
        'ो' => Some("o"@),
        'ौ' => Some("au"@),
        'ं' => Some("ṃ"@),
        'ः' => Some("ḥ"@),
        'ँ' => Some("m̐"@),
        _ => None,
    }
}

/// The full Roman form of a consonant letter.
pub open spec fn consonant(c: char) -> Option<Seq<char>> {
    match c {
        'क' => Some("ka"@),
        'ख' => Some("kha"@),
        'ग' => Some("ga"@),
        'घ' => Some("gha"@),
        'ङ' => Some("ṅa"@),
        'च' => Some("ca"@),
        'छ' => Some("cha"@),
        'ज' => Some("ja"@),
        'झ' => Some("jha"@),
        'ञ' => Some("ña"@),
        'ट' => Some("ṭa"@),
        'ठ' => Some("ṭha"@),
        'ड' => Some("ḍa"@),
        'ढ' => Some("ḍha"@),
        'ण' => Some("ṇa"@),
        'त' => Some("ta"@),
        'थ' => Some("tha"@),
        'द' => Some("da"@),
        'ध' => Some("dha"@),
        'न' => Some("na"@),
        'प' => Some("pa"@),
        'फ' => Some("pha"@),
        'ब' => Some("ba"@),
        'भ' => Some("bha"@),
        'म' => Some("ma"@),
        'य' => Some("ya"@),
        'र' => Some("ra"@),
        'ल' => Some("la"@),
        'व' => Some("va"@),
        'श' => Some("śa"@),
        'ष' => Some("ṣa"@),
        'स' => Some("sa"@),
        'ह' => Some("ha"@),
        _ => None,
    }
}

/// The vowel letters, each an independent text.
pub open spec fn vowels() -> Map<char, Symbol> {
    Map::new(|c: char| vowel(c) is Some, |c: char| Symbol::Independent(vowel(c)->0))
}

/// The vowel signs and the other dependent marks, each an independent text.
pub open spec fn marks() -> Map<char, Symbol> {
    Map::new(|c: char| mark(c) is Some, |c: char| Symbol::Independent(mark(c)->0))
}

/// The consonant letters, each a consonant syllable.
pub open spec fn consonants() -> Map<char, Symbol> {
    Map::new(
        |c: char| consonant(c) is Some,
        |c: char| Symbol::ConsonantSyllable(consonant(c)->0),
    )
}

/// What each codepoint that Devanagari knows stands for.
pub open spec fn symbols() -> Map<char, Symbol> {
    vowels().union_prefer_right(marks()).union_prefer_right(consonants())
}

/// The description of Devanagari as a mathematical value.
pub open spec fn spec_profile() -> Profile {
    Profile {
        name: NAME@,
        symbols: symbols(),
        killers: set![VIRAMA],
        conjuncts: Map::empty(),
    }
}

/// Enters the vowel letters.
fn enter_vowels(profile: &mut ScriptProfile)
    requires
        old(profile)@.killers.is_empty(),
    ensures
        final(profile)@ == (Profile {
            symbols: old(profile)@.symbols.union_prefer_right(vowels()),
            ..old(profile)@
        }),
{
    enter_independent(profile, 'अ', "a");
    enter_independent(profile, 'आ', "ā");
    enter_independent(profile, 'इ', "i");
    enter_independent(profile, 'ई', "ī");
    enter_independent(profile, 'उ', "u");
    enter_independent(profile, 'ऊ', "ū");
    enter_independent(profile, 'ऋ', "ṛ");
    enter_independent(profile, 'ॠ', "ṝ");
    enter_independent(profile, 'ऌ', "ḷ");
    enter_independent(profile, 'ॡ', "ḹ");
    enter_independent(profile, 'ए', "e");
    enter_independent(profile, 'ऐ', "ai");
    enter_independent(profile, 'ओ', "o");
    enter_independent(profile, 'औ', "au");
    assert(profile@.symbols =~= old(profile)@.symbols.union_prefer_right(vowels()));
}

/// Enters the vowel signs and the other dependent marks.
fn enter_marks(profile: &mut ScriptProfile)
    requires
        old(profile)@.killers.is_empty(),
    ensures
        final(profile)@ == (Profile {
            symbols: old(profile)@.symbols.union_prefer_right(marks()),
            ..old(profile)@
        }),
{
    enter_independent(profile, 'ा', "ā");
    enter_independent(profile, 'ि', "i");
    enter_independent(profile, 'ी', "ī");
    enter_independent(profile, 'ु', "u");
    enter_independent(profile, 'ू', "ū");
    enter_independent(profile, 'ृ', "ṛ");
    enter_independent(profile, 'ॄ', "ṝ");
    enter_independent(profile, 'ॢ', "ḷ");
    enter_independent(profile, 'ॣ', "ḹ");
    enter_independent(profile, 'े', "e");
    enter_independent(profile, 'ै', "ai");
    enter_independent(profile, 'ो', "o");
    enter_independent(profile, 'ौ', "au");
    enter_independent(profile, 'ं', "ṃ");
    enter_independent(profile, 'ः', "ḥ");
    enter_independent(profile, 'ँ', "m̐");
    assert(profile@.symbols =~= old(profile)@.symbols.union_prefer_right(marks()));
}

/// Enters the consonant letters.
fn enter_consonants(profile: &mut ScriptProfile)
    requires
        old(profile)@.killers.is_empty(),
    ensures
        final(profile)@ == (Profile {
            symbols: old(profile)@.symbols.union_prefer_right(consonants()),
            ..old(profile)@
        }),
{
    proof {
        reveal_strlit("ka");
        reveal_strlit("kha");
        reveal_strlit("ga");
        reveal_strlit("gha");
        reveal_strlit("ṅa");
        reveal_strlit("ca");
        reveal_strlit("cha");
        reveal_strlit("ja");
        reveal_strlit("jha");
        reveal_strlit("ña");
        reveal_strlit("ṭa");
        reveal_strlit("ṭha");
        reveal_strlit("ḍa");
        reveal_strlit("ḍha");
        reveal_strlit("ṇa");
        reveal_strlit("ta");
        reveal_strlit("tha");
        reveal_strlit("da");
        reveal_strlit("dha");
        reveal_strlit("na");
        reveal_strlit("pa");
        reveal_strlit("pha");
        reveal_strlit("ba");
        reveal_strlit("bha");
        reveal_strlit("ma");
        reveal_strlit("ya");
        reveal_strlit("ra");
        reveal_strlit("la");
        reveal_strlit("va");
        reveal_strlit("śa");
        reveal_strlit("ṣa");
        reveal_strlit("sa");
        reveal_strlit("ha");
    }
    enter_consonant(profile, 'क', "ka");
    enter_consonant(profile, 'ख', "kha");
    enter_consonant(profile, 'ग', "ga");
    enter_consonant(profile, 'घ', "gha");
    enter_consonant(profile, 'ङ', "ṅa");
    enter_consonant(profile, 'च', "ca");
    enter_consonant(profile, 'छ', "cha");
    enter_consonant(profile, 'ज', "ja");
    enter_consonant(profile, 'झ', "jha");
    enter_consonant(profile, 'ञ', "ña");
    enter_consonant(profile, 'ट', "ṭa");
    enter_consonant(profile, 'ठ', "ṭha");
    enter_consonant(profile, 'ड', "ḍa");
    enter_consonant(profile, 'ढ', "ḍha");
    enter_consonant(profile, 'ण', "ṇa");
    enter_consonant(profile, 'त', "ta");
    enter_consonant(profile, 'थ', "tha");
    enter_consonant(profile, 'द', "da");
    enter_consonant(profile, 'ध', "dha");
    enter_consonant(profile, 'न', "na");
    enter_consonant(profile, 'प', "pa");
    enter_consonant(profile, 'फ', "pha");
    enter_consonant(profile, 'ब', "ba");
    enter_consonant(profile, 'भ', "bha");
    enter_consonant(profile, 'म', "ma");
    enter_consonant(profile, 'य', "ya");
    enter_consonant(profile, 'र', "ra");
    enter_consonant(profile, 'ल', "la");
    enter_consonant(profile, 'व', "va");
    enter_consonant(profile, 'श', "śa");
    enter_consonant(profile, 'ष', "ṣa");
    enter_consonant(profile, 'स', "sa");
    enter_consonant(profile, 'ह', "ha");
    assert(profile@.symbols =~= old(profile)@.symbols.union_prefer_right(consonants()));
}

/// The description of Devanagari.
pub fn profile() -> (profile: ScriptProfile)
    ensures
        profile@ == spec_profile(),
{
    let mut profile = ScriptProfile::new(NAME);
    enter_vowels(&mut profile);
    enter_marks(&mut profile);
    enter_consonants(&mut profile);
    enter_killer(&mut profile, VIRAMA);
    assert(profile@.symbols =~= symbols());
    profile
}

/// Transliterates a text from Devanagari.
pub fn transliterate(text: &str) -> (out: String)
    ensures
        out@ == rewrite(spec_profile(), text@),
{
    profile().transliterate(text)
}

/// The description meets the rules of its data: every consonant syllable
/// ends in the inherent vowel, and the vowel killer stands for no text.
pub proof fn lemma_well_formed()
    ensures
        spec_profile().wf(),
{
    reveal_strlit("ka");
    reveal_strlit("kha");
    reveal_strlit("ga");
    reveal_strlit("gha");
    reveal_strlit("ṅa");
    reveal_strlit("ca");
    reveal_strlit("cha");
    reveal_strlit("ja");
    reveal_strlit("jha");
    reveal_strlit("ña");
    reveal_strlit("ṭa");
    reveal_strlit("ṭha");
    reveal_strlit("ḍa");
    reveal_strlit("ḍha");
    reveal_strlit("ṇa");
    reveal_strlit("ta");
    reveal_strlit("tha");
    reveal_strlit("da");
    reveal_strlit("dha");
    reveal_strlit("na");
    reveal_strlit("pa");
    reveal_strlit("pha");
    reveal_strlit("ba");
    reveal_strlit("bha");
    reveal_strlit("ma");
    reveal_strlit("ya");
    reveal_strlit("ra");
    reveal_strlit("la");
    reveal_strlit("va");
    reveal_strlit("śa");
    reveal_strlit("ṣa");
    reveal_strlit("sa");
    reveal_strlit("ha");
}

/// The description speaks of codepoints of the Devanagari block only.
pub proof fn lemma_keeps_to_block(c: char)
    ensures
        spec_profile().mentions(c) ==> in_block(c),
{
}

/// No codepoint of a text that the description writes lies in the Devanagari
/// block.
proof fn lemma_writes_outside_block(c: char, i: int)
    requires
        symbols().contains_key(c),
        0 <= i < symbols()[c].text().len(),
    ensures
        !in_block(symbols()[c].text()[i]),
{
    reveal_strlit("a");
    reveal_strlit("ā");
    reveal_strlit("i");
    reveal_strlit("ī");
    reveal_strlit("u");
    reveal_strlit("ū");
    reveal_strlit("ṛ");
    reveal_strlit("ṝ");
    reveal_strlit("ḷ");
    reveal_strlit("ḹ");
    reveal_strlit("e");
    reveal_strlit("ai");
    reveal_strlit("o");
    reveal_strlit("au");
    reveal_strlit("ṃ");
    reveal_strlit("ḥ");
    reveal_strlit("m̐");
    reveal_strlit("ka");
    reveal_strlit("kha");
    reveal_strlit("ga");
    reveal_strlit("gha");
    reveal_strlit("ṅa");
    reveal_strlit("ca");
    reveal_strlit("cha");
    reveal_strlit("ja");
    reveal_strlit("jha");
    reveal_strlit("ña");
    reveal_strlit("ṭa");
    reveal_strlit("ṭha");
    reveal_strlit("ḍa");
    reveal_strlit("ḍha");
    reveal_strlit("ṇa");
    reveal_strlit("ta");
    reveal_strlit("tha");
    reveal_strlit("da");
    reveal_strlit("dha");
    reveal_strlit("na");
    reveal_strlit("pa");
    reveal_strlit("pha");
    reveal_strlit("ba");
    reveal_strlit("bha");
    reveal_strlit("ma");
    reveal_strlit("ya");
    reveal_strlit("ra");
    reveal_strlit("la");
    reveal_strlit("va");
    reveal_strlit("śa");
    reveal_strlit("ṣa");
    reveal_strlit("sa");
    reveal_strlit("ha");
}

/// What the description writes is made of codepoints that it says nothing
/// about.
pub proof fn lemma_closed()
    ensures
        spec_profile().is_closed(),
{
    let profile = spec_profile();
    assert forall|c: char| #[trigger] profile.symbols.contains_key(c) implies profile.is_foreign(
        profile.symbols[c].text(),
    ) by {
        let text = profile.symbols[c].text();
        assert forall|i: int| 0 <= i < text.len() implies !profile.mentions(#[trigger] text[i]) by {
            lemma_writes_outside_block(c, i);
            lemma_keeps_to_block(text[i]);
        }
    }
}

} // verus!
