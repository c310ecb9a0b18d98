//! The entries of a script's symbol table.

use vstd::prelude::*;
use crate::text::is_single_unit;

verus! {

/// How the vowel that every bare consonant carries is written in the output.
pub const INHERENT_VOWEL: char = 'a';

/// Whether a text is not empty and ends in the inherent vowel.
pub open spec fn ends_in_inherent_vowel(text: Seq<char>) -> bool {
    text.len() > 0 && text.last() == INHERENT_VOWEL
}

/// What one source codepoint stands for, as a mathematical value.
pub enum Symbol {
    /// A text that is written out as it is: a vowel letter, a vowel sign,
    /// a nasalisation or aspiration mark, punctuation.
    Independent(Seq<char>),
    /// The full form of a consonant: its letters and then the inherent vowel.
    ConsonantSyllable(Seq<char>),
}

impl Symbol {
    /// The text that the entry carries.
    pub open spec fn text(self) -> Seq<char> {
        match self {
            Symbol::Independent(t) => t,
            Symbol::ConsonantSyllable(t) => t,
        }
    }

    /// A consonant syllable ends in the inherent vowel; an independent text
    /// is unconstrained.
    pub open spec fn wf(self) -> bool {
        self is ConsonantSyllable ==> ends_in_inherent_vowel(self.text())
    }

    /// An independent text of a single output unit: it takes the place of the
    /// inherent vowel of the consonant before it.
    pub open spec fn is_vowel_sign(self) -> bool {
        self is Independent && is_single_unit(self.text())
    }
}

/// What one source codepoint stands for.
#[derive(Debug, PartialEq, Eq)]
pub enum SymbolEntry {
    /// A text that is written out as it is.
    Independent(String),
    /// The full form of a consonant, ending in the inherent vowel.
    ConsonantSyllable(String),
}

impl View for SymbolEntry {
    type V = Symbol;

    open spec fn view(&self) -> Symbol {
        match self {
            SymbolEntry::Independent(t) => Symbol::Independent(t@),
            SymbolEntry::ConsonantSyllable(t) => Symbol::ConsonantSyllable(t@),
        }
    }
}

impl Clone for SymbolEntry {
    fn clone(&self) -> (copy: SymbolEntry)
        ensures
            copy == *self,
    {
        match self {
            SymbolEntry::Independent(t) => SymbolEntry::Independent(t.clone()),
            SymbolEntry::ConsonantSyllable(t) => SymbolEntry::ConsonantSyllable(t.clone()),
        }
    }
}

/// Whether a string slice is not empty and ends in the inherent vowel.
pub fn is_syllable_text(text: &str) -> (ok: bool)
    ensures
        ok == ends_in_inherent_vowel(text@),
{
    let n: usize = text.unicode_len();
    n > 0 && text.get_char(n - 1) == INHERENT_VOWEL
}

impl SymbolEntry {
    /// An entry that is written out as it is.
    pub fn independent(text: &str) -> (entry: SymbolEntry)
        ensures
            entry@ == Symbol::Independent(text@),
    {
        SymbolEntry::Independent(text.to_owned())
    }

    /// The entry of a consonant with the given full form, if that form ends
    /// in the inherent vowel.
    pub fn consonant(text: &str) -> (entry: Option<SymbolEntry>)
        ensures
            entry is Some <==> ends_in_inherent_vowel(text@),
            entry is Some ==> entry->0@ == Symbol::ConsonantSyllable(text@),
    {
        if is_syllable_text(text) {
            Some(SymbolEntry::ConsonantSyllable(text.to_owned()))
        } else {
            None
        }
    }

    /// The text that the entry carries.
    pub fn text(&self) -> (t: &str)
        ensures
            t@ == self@.text(),
    {
        match self {
            SymbolEntry::Independent(t) => t.as_str(),
            SymbolEntry::ConsonantSyllable(t) => t.as_str(),
        }
    }

    /// Whether the entry is the full form of a consonant.
    pub fn is_consonant(&self) -> (yes: bool)
        ensures
            yes == (self@ is ConsonantSyllable),
    {
        match self {
            SymbolEntry::Independent(_) => false,
            SymbolEntry::ConsonantSyllable(_) => true,
        }
    }

    /// Whether the entry meets the rule of its kind.
    pub fn is_well_formed(&self) -> (ok: bool)
        ensures
            ok == self@.wf(),
    {
        match self {
            SymbolEntry::Independent(_) => true,
            SymbolEntry::ConsonantSyllable(t) => is_syllable_text(t.as_str()),
        }
    }

    /// Whether the entry is an independent text of a single output unit.
    pub fn is_vowel_sign(&self) -> (yes: bool)
        ensures
            yes == self@.is_vowel_sign(),
    {
        match self {
            SymbolEntry::Independent(t) => crate::text::has_single_unit(t.as_str()),
            SymbolEntry::ConsonantSyllable(_) => false,
        }
    }
}

} // verus!
