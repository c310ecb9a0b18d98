//! The description of one source script: which codepoints it knows and what
//! each of them stands for.

use std::collections::HashMap;
use std::collections::HashSet;
use vstd::prelude::*;
use crate::symbol::Symbol;
use crate::symbol::SymbolEntry;

verus! {

broadcast use vstd::std_specs::hash::group_hash_axioms;

/// The class of a codepoint with respect to one script.
#[derive(Clone, Copy, Debug, PartialEq, Eq, Structural)]
pub enum CharClass {
    /// An independent text of more than one output unit, or of none.
    Vowel,
    /// An independent text of a single output unit. The length of the text
    /// alone tells this class from [`CharClass::Vowel`].
    VowelSign,
    /// A consonant, which carries the inherent vowel.
    Consonant,
    /// A mark that removes the inherent vowel of the consonant before it.
    VowelKiller,
    /// A codepoint that the script says nothing about.
    Unmapped,
}

/// Why a script description refuses a change.
#[derive(Clone, Copy, Debug, PartialEq, Eq, Structural)]
pub enum ProfileError {
    /// The full form of a consonant must end in the inherent vowel.
    InvalidSyllable,
    /// A vowel killer writes nothing: it cannot stand for a text.
    KillerHasOutput,
}

/// A script description as a mathematical value.
pub struct Profile {
    /// The identifier of the script.
    pub name: Seq<char>,
    /// What each known codepoint stands for.
    pub symbols: Map<char, Symbol>,
    /// The codepoints that remove the inherent vowel of the consonant before
    /// them and write nothing themselves.
    pub killers: Set<char>,
    /// The pairs of codepoints that are written as one unit, with its text.
    pub conjuncts: Map<(char, char), Seq<char>>,
}

impl Profile {
    /// The description that knows no codepoint.
    pub open spec fn empty(name: Seq<char>) -> Profile {
        Profile { name, symbols: Map::empty(), killers: Set::empty(), conjuncts: Map::empty() }
    }

    /// Every consonant syllable ends in the inherent vowel, and a vowel killer
    /// that is also a symbol stands for the empty text.
    pub open spec fn wf(self) -> bool {
        &&& forall|c: char| #[trigger] self.symbols.contains_key(c) ==> self.symbols[c].wf()
        &&& forall|c: char|
            self.killers.contains(c) && #[trigger] self.symbols.contains_key(c)
                ==> self.symbols[c].text().len() == 0
    }

    /// The class of a codepoint. A vowel killer is recognised before anything
    /// else.
    pub open spec fn classify(self, c: char) -> CharClass {
        if self.killers.contains(c) {
            CharClass::VowelKiller
        } else if !self.symbols.contains_key(c) {
            CharClass::Unmapped
        } else if self.symbols[c] is ConsonantSyllable {
            CharClass::Consonant
        } else if self.symbols[c].is_vowel_sign() {
            CharClass::VowelSign
        } else {
            CharClass::Vowel
        }
    }

    /// Whether a codepoint, standing right after a consonant, removes that
    /// consonant's inherent vowel: a vowel sign or a vowel killer does.
    pub open spec fn suppresses(self, c: char) -> bool {
        self.classify(c) == CharClass::VowelSign || self.classify(c) == CharClass::VowelKiller
    }

    /// Whether the description says anything about a codepoint: as a symbol,
    /// as a vowel killer, or as one half of a conjunct.
    pub open spec fn mentions(self, c: char) -> bool {
        ||| self.symbols.contains_key(c)
        ||| self.killers.contains(c)
        ||| exists|d: char| #[trigger] self.conjuncts.contains_key((c, d))
        ||| exists|d: char| #[trigger] self.conjuncts.contains_key((d, c))
    }

    /// Whether the description says nothing about any codepoint of a text.
    pub open spec fn is_foreign(self, text: Seq<char>) -> bool {
        forall|i: int| 0 <= i < text.len() ==> !self.mentions(#[trigger] text[i])
    }

    /// Whether the description keeps what it reads apart from what it
    /// writes: every text that it writes is made of codepoints that it says
    /// nothing about, and each half of a conjunct is a symbol or a vowel
    /// killer.
    pub open spec fn is_closed(self) -> bool {
        &&& forall|c: char| #[trigger]
            self.symbols.contains_key(c) ==> self.is_foreign(self.symbols[c].text())
        &&& forall|first: char, second: char| #[trigger]
            self.conjuncts.contains_key((first, second)) ==> {
                &&& self.is_foreign(self.conjuncts[(first, second)])
                &&& self.symbols.contains_key(first) || self.killers.contains(first)
                &&& self.symbols.contains_key(second) || self.killers.contains(second)
            }
    }

    /// Why the symbol `symbol` cannot be entered for the codepoint `c`, if it
    /// cannot.
    pub open spec fn symbol_refusal(self, c: char, symbol: Symbol) -> Option<ProfileError> {
        if !symbol.wf() {
            Some(ProfileError::InvalidSyllable)
        } else if self.killers.contains(c) && symbol.text().len() > 0 {
            Some(ProfileError::KillerHasOutput)
        } else {
            None
        }
    }

    /// Why the codepoint `c` cannot become a vowel killer, if it cannot.
    pub open spec fn killer_refusal(self, c: char) -> Option<ProfileError> {
        if self.symbols.contains_key(c) && self.symbols[c].text().len() > 0 {
            Some(ProfileError::KillerHasOutput)
        } else {
            None
        }
    }

    /// The description with `symbol` entered for `c`, in place of what `c`
    /// stood for before.
    pub open spec fn with_symbol(self, c: char, symbol: Symbol) -> Profile {
        Profile { symbols: self.symbols.insert(c, symbol), ..self }
    }

    /// The description with `c` as one more vowel killer.
    pub open spec fn with_killer(self, c: char) -> Profile {
        Profile { killers: self.killers.insert(c), ..self }
    }

    /// The description with the pair `first`, `second` written as `text`.
    pub open spec fn with_conjunct(self, first: char, second: char, text: Seq<char>) -> Profile {
        Profile { conjuncts: self.conjuncts.insert((first, second), text), ..self }
    }
}

/// The description that knows no codepoint meets the rules of its data.
pub proof fn lemma_empty_is_well_formed(name: Seq<char>)
    ensures
        Profile::empty(name).wf(),
{
}

/// A description that meets the rules of its data meets them still after a
/// symbol was entered that it does not refuse.
pub proof fn lemma_symbol_keeps_well_formed(profile: Profile, c: char, symbol: Symbol)
    requires
        profile.wf(),
        profile.symbol_refusal(c, symbol) is None,
    ensures
        profile.with_symbol(c, symbol).wf(),
{
}

/// A description that meets the rules of its data meets them still with a
/// vowel killer more that it does not refuse.
pub proof fn lemma_killer_keeps_well_formed(profile: Profile, c: char)
    requires
        profile.wf(),
        profile.killer_refusal(c) is None,
    ensures
        profile.with_killer(c).wf(),
{
}

/// A description that meets the rules of its data meets them still with a
/// conjunct more.
pub proof fn lemma_conjunct_keeps_well_formed(
    profile: Profile,
    first: char,
    second: char,
    text: Seq<char>,
)
    requires
        profile.wf(),
    ensures
        profile.with_conjunct(first, second, text).wf(),
{
}

/// The description of one source script.
///
/// The symbols and the vowel killers are filed under the number of their
/// codepoint, the conjuncts under a number made of the two codepoints of the
/// pair.
#[derive(Debug)]
pub struct ScriptProfile {
    name: String,
    symbols: HashMap<u32, SymbolEntry>,
    killers: HashSet<u32>,
    conjuncts: HashMap<u64, String>,
}

/// The number under which a codepoint is filed.
spec fn char_key(c: char) -> u32 {
    c as u32
}

/// Different codepoints are filed under different numbers.
proof fn lemma_char_key_injective(a: char, b: char)
    requires
        char_key(a) == char_key(b),
    ensures
        a == b,
{
}

/// The number under which a pair of codepoints is filed.
spec fn pair_key(first: char, second: char) -> u64 {
    (first as u64 * 0x110000 + second as u64) as u64
}

/// Different pairs are filed under different numbers.
proof fn lemma_pair_key_injective(a: char, b: char, c: char, d: char)
    requires
        pair_key(a, b) == pair_key(c, d),
    ensures
        a == c,
        b == d,
{
}

/// The symbols that a table filed by codepoint number holds.
spec fn symbols_of(table: Map<u32, SymbolEntry>) -> Map<char, Symbol> {
    Map::new(|c: char| table.contains_key(char_key(c)), |c: char| table[char_key(c)]@)
}

/// The codepoints whose numbers a set holds.
spec fn killers_of(numbers: Set<u32>) -> Set<char> {
    Set::new(|c: char| numbers.contains(char_key(c)))
}

/// The conjuncts that a table filed by pair number holds.
spec fn conjuncts_of(table: Map<u64, String>) -> Map<(char, char), Seq<char>> {
    Map::new(
        |p: (char, char)| table.contains_key(pair_key(p.0, p.1)),
        |p: (char, char)| table[pair_key(p.0, p.1)]@,
    )
}

impl View for ScriptProfile {
    type V = Profile;

    closed spec fn view(&self) -> Profile {
        Profile {
            name: self.name@,
            symbols: symbols_of(self.symbols@),
            killers: killers_of(self.killers@),
            conjuncts: conjuncts_of(self.conjuncts@),
        }
    }
}

impl ScriptProfile {
    #[verifier::type_invariant]
    spec fn inv(&self) -> bool {
        self@.wf()
    }

    /// Every description meets the rules of its data. The call does nothing
    /// when it runs: it hands the fact to the caller's proof.
    pub fn well_formed(&self)
        ensures
            self@.wf(),
    {
        proof {
            use_type_invariant(self);
        }
    }

    /// A description with the given identifier that knows no codepoint yet.
    pub fn new(name: &str) -> (profile: ScriptProfile)
        ensures
            profile@ == Profile::empty(name@),
    {
        let profile = ScriptProfile {
            name: name.to_owned(),
            symbols: HashMap::new(),
            killers: HashSet::new(),
            conjuncts: HashMap::new(),
        };
        assert(profile@.symbols =~= Map::empty());
        assert(profile@.killers =~= Set::empty());
        assert(profile@.conjuncts =~= Map::empty());
        profile
    }

    /// The identifier of the script.
    pub fn name(&self) -> (name: &str)
        ensures
            name@ == self@.name,
    {
        self.name.as_str()
    }

    /// What the codepoint `c` stands for, if the script knows it as a symbol.
    pub fn lookup(&self, c: char) -> (entry: Option<&SymbolEntry>)
        ensures
            entry is Some <==> self@.symbols.contains_key(c),
            entry is Some ==> entry->0@ == self@.symbols[c] && entry->0@.wf(),
    {
        proof {
            use_type_invariant(self);
        }
        let key: u32 = c as u32;
        let entry = self.symbols.get(&key);
        assert(entry is Some ==> self@.symbols.contains_key(c));
        entry
    }

    /// Whether the codepoint `c` is a vowel killer of the script.
    pub fn is_killer(&self, c: char) -> (yes: bool)
        ensures
            yes == self@.killers.contains(c),
    {
        let key: u32 = c as u32;
        self.killers.contains(&key)
    }

    /// The text of the conjunct that the pair `first`, `second` forms, if
    /// the script knows the pair as one.
    pub fn conjunct(&self, first: char, second: char) -> (text: Option<&str>)
        ensures
            text is Some <==> self@.conjuncts.contains_key((first, second)),
            text is Some ==> text->0@ == self@.conjuncts[(first, second)],
    {
        let key: u64 = first as u64 * 0x110000 + second as u64;
        match self.conjuncts.get(&key) {
            Some(text) => Some(text.as_str()),
            None => None,
        }
    }

    /// The class of the codepoint `c` in this script.
    pub fn classify(&self, c: char) -> (class: CharClass)
        ensures
            class == self@.classify(c),
    {
        if self.is_killer(c) {
            CharClass::VowelKiller
        } else {
            match self.lookup(c) {
                None => CharClass::Unmapped,
                Some(entry) => {
                    if entry.is_consonant() {
                        CharClass::Consonant
                    } else if entry.is_vowel_sign() {
                        CharClass::VowelSign
                    } else {
                        CharClass::Vowel
                    }
                },
            }
        }
    }

    /// Whether the codepoint `c`, standing right after a consonant, removes
    /// that consonant's inherent vowel.
    pub fn suppresses(&self, c: char) -> (yes: bool)
        ensures
            yes == self@.suppresses(c),
    {
        match self.classify(c) {
            CharClass::VowelSign => true,
            CharClass::VowelKiller => true,
            _ => false,
        }
    }

    /// Enters `entry` for the codepoint `c`, in place of what `c` stood for
    /// before. An entry that breaks the rule of its kind is refused, and so
    /// is a text for a vowel killer; the description then stays as it was.
    pub fn insert(&mut self, c: char, entry: SymbolEntry) -> (done: Result<(), ProfileError>)
        ensures
            done == match old(self)@.symbol_refusal(c, entry@) {
                Some(error) => Err::<(), ProfileError>(error),
                None => Ok(()),
            },
            final(self)@ == if done is Ok {
                old(self)@.with_symbol(c, entry@)
            } else {
                old(self)@
            },
    {
        if !entry.is_well_formed() {
            return Err(ProfileError::InvalidSyllable);
        }
        if self.is_killer(c) && !entry.text().is_empty() {
            return Err(ProfileError::KillerHasOutput);
        }
        let key: u32 = c as u32;
        proof {
            use_type_invariant(&*self);
        }
        let ghost before = self@;
        let ghost symbol = entry@;
        // The table is moved out while it changes: what is left behind is
        // well formed at every step.
        let mut symbols: HashMap<u32, SymbolEntry> = HashMap::new();
        std::mem::swap(&mut symbols, &mut self.symbols);
        symbols.insert(key, entry);
        proof {
            assert forall|d: char| char_key(d) == key implies d == c by {
                lemma_char_key_injective(d, c);
            }
            assert(symbols_of(symbols@) =~= before.symbols.insert(c, symbol));
        }
        self.symbols = symbols;
        Ok(())
    }

    /// Makes the codepoint `c` a vowel killer. A codepoint that stands for a
    /// text is refused; the description then stays as it was.
    pub fn add_killer(&mut self, c: char) -> (done: Result<(), ProfileError>)
        ensures
            done == match old(self)@.killer_refusal(c) {
                Some(error) => Err::<(), ProfileError>(error),
                None => Ok(()),
            },
            final(self)@ == if done is Ok {
                old(self)@.with_killer(c)
            } else {
                old(self)@
            },
    {
        let has_output: bool = match self.lookup(c) {
            Some(entry) => !entry.text().is_empty(),
            None => false,
        };
        if has_output {
            return Err(ProfileError::KillerHasOutput);
        }
        let key: u32 = c as u32;
        proof {
            use_type_invariant(&*self);
        }
        let ghost before = self@;
        let mut killers: HashSet<u32> = HashSet::new();
        std::mem::swap(&mut killers, &mut self.killers);
        killers.insert(key);
        proof {
            assert forall|d: char| char_key(d) == key implies d == c by {
                lemma_char_key_injective(d, c);
            }
            assert(killers_of(killers@) =~= before.killers.insert(c));
        }
        self.killers = killers;
        Ok(())
    }

    /// Lets the pair `first`, `second` be written as `text`, in place of what
    /// the pair was written as before.
    pub fn insert_conjunct(&mut self, first: char, second: char, text: &str)
        ensures
            final(self)@ == old(self)@.with_conjunct(first, second, text@),
    {
        let key: u64 = first as u64 * 0x110000 + second as u64;
        proof {
            use_type_invariant(&*self);
        }
        let ghost before = self@;
        assert(before.symbols == symbols_of(self.symbols@));
        let mut conjuncts: HashMap<u64, String> = HashMap::new();
        std::mem::swap(&mut conjuncts, &mut self.conjuncts);
        conjuncts.insert(key, text.to_owned());
        proof {
            assert forall|p: (char, char)|
                pair_key(p.0, p.1) == key implies p == (first, second) by {
                lemma_pair_key_injective(p.0, p.1, first, second);
            }
            assert(conjuncts_of(conjuncts@) =~= before.conjuncts.insert((first, second), text@));
        }
        self.conjuncts = conjuncts;
    }
}

} // verus!
