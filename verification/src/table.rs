//! How the descriptions of the built-in scripts are filled.

use vstd::prelude::*;
use crate::profile::ScriptProfile;
use crate::symbol::ends_in_inherent_vowel;
use crate::symbol::Symbol;
use crate::symbol::SymbolEntry;

verus! {

/// Enters an independent text for a codepoint that is no vowel killer.
pub(crate) fn enter_independent(profile: &mut ScriptProfile, c: char, text: &str)
    requires
        !old(profile)@.killers.contains(c),
    ensures
        final(profile)@ == old(profile)@.with_symbol(c, Symbol::Independent(text@)),
{
    let _ = profile.insert(c, SymbolEntry::Independent(text.to_owned()));
}

/// Enters the full form of a consonant for a codepoint that is no vowel
/// killer.
pub(crate) fn enter_consonant(profile: &mut ScriptProfile, c: char, text: &str)
    requires
        !old(profile)@.killers.contains(c),
        ends_in_inherent_vowel(text@),
    ensures
        final(profile)@ == old(profile)@.with_symbol(c, Symbol::ConsonantSyllable(text@)),
{
    let _ = profile.insert(c, SymbolEntry::ConsonantSyllable(text.to_owned()));
}

/// Makes a codepoint that stands for no text a vowel killer.
pub(crate) fn enter_killer(profile: &mut ScriptProfile, c: char)
    requires
        !old(profile)@.symbols.contains_key(c),
    ensures
        final(profile)@ == old(profile)@.with_killer(c),
{
    let _ = profile.add_killer(c);
}

} // verus!
