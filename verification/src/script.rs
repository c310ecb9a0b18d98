//! The scripts that can be selected by name.

use vstd::prelude::*;
use crate::profile::Profile;
use crate::profile::ScriptProfile;
use crate::text::str_eq;

verus! {

/// What is said of a script that has no table yet, after its name.
pub const NOT_IMPLEMENTED: &'static str = " to IAST not fully implemented yet";

/// A script that can be selected by name.
#[derive(Clone, Copy, Debug, PartialEq, Eq, Structural)]
pub enum Script {
    Devanagari,
    Bengali,
    Tamil,
    Telugu,
    Kannada,
    Malayalam,
    Gujarati,
    Odia,
    Punjabi,
}

impl Script {
    /// The scripts, in the order in which they are listed.
    pub open spec fn spec_all() -> Seq<Script> {
        seq![
            Script::Devanagari,
            Script::Bengali,
            Script::Tamil,
            Script::Telugu,
            Script::Kannada,
            Script::Malayalam,
            Script::Gujarati,
            Script::Odia,
            Script::Punjabi,
        ]
    }

    /// The identifier by which the script is selected.
    pub open spec fn spec_name(self) -> Seq<char> {
        match self {
            Script::Devanagari => "devanagari"@,
            Script::Bengali => "bengali"@,
            Script::Tamil => "tamil"@,
            Script::Telugu => "telugu"@,
            Script::Kannada => "kannada"@,
            Script::Malayalam => "malayalam"@,
            Script::Gujarati => "gujarati"@,
            Script::Odia => "odia"@,
            Script::Punjabi => "punjabi"@,
        }
    }

    /// The script that an identifier selects: the one whose identifier it is,
    /// letter for letter.
    pub open spec fn spec_from_name(name: Seq<char>) -> Option<Script> {
        if name == "devanagari"@ {
            Some(Script::Devanagari)
        } else if name == "bengali"@ {
            Some(Script::Bengali)
        } else if name == "tamil"@ {
            Some(Script::Tamil)
        } else if name == "telugu"@ {
            Some(Script::Telugu)
        } else if name == "kannada"@ {
            Some(Script::Kannada)
        } else if name == "malayalam"@ {
            Some(Script::Malayalam)
        } else if name == "gujarati"@ {
            Some(Script::Gujarati)
        } else if name == "odia"@ {
            Some(Script::Odia)
        } else if name == "punjabi"@ {
            Some(Script::Punjabi)
        } else {
            None
        }
    }

    /// The name of the script as it is written in running text.
    pub open spec fn spec_title(self) -> Seq<char> {
        match self {
            Script::Devanagari => "Devanagari"@,
            Script::Bengali => "Bengali"@,
            Script::Tamil => "Tamil"@,
            Script::Telugu => "Telugu"@,
            Script::Kannada => "Kannada"@,
            Script::Malayalam => "Malayalam"@,
            Script::Gujarati => "Gujarati"@,
            Script::Odia => "Odia"@,
            Script::Punjabi => "Punjabi"@,
        }
    }

    /// Whether the script has a table.
    pub open spec fn spec_is_implemented(self) -> bool {
        self == Script::Devanagari || self == Script::Bengali || self == Script::Tamil
    }

    /// The sentence that says of the script that it has no table yet.
    pub open spec fn spec_notice(self) -> Seq<char> {
        self.spec_title() + NOT_IMPLEMENTED@
    }

    /// The first and the last codepoint of the block of the script.
    pub open spec fn spec_block(self) -> (char, char) {
        match self {
            Script::Devanagari => (crate::devanagari::BLOCK_FIRST, crate::devanagari::BLOCK_LAST),
            Script::Bengali => (crate::bengali::BLOCK_FIRST, crate::bengali::BLOCK_LAST),
            Script::Tamil => (crate::tamil::BLOCK_FIRST, crate::tamil::BLOCK_LAST),
            Script::Telugu => ('\u{0c00}', '\u{0c7f}'),
            Script::Kannada => ('\u{0c80}', '\u{0cff}'),
            Script::Malayalam => ('\u{0d00}', '\u{0d7f}'),
            Script::Gujarati => ('\u{0a80}', '\u{0aff}'),
            Script::Odia => ('\u{0b00}', '\u{0b7f}'),
            Script::Punjabi => ('\u{0a00}', '\u{0a7f}'),
        }
    }

    /// Whether a codepoint lies in the block of the script.
    pub open spec fn spec_in_block(self, c: char) -> bool {
        self.spec_block().0 <= c <= self.spec_block().1
    }

    /// The description of the script. A script without a table has the
    /// description that knows no codepoint.
    pub open spec fn spec_profile(self) -> Profile {
        match self {
            Script::Devanagari => crate::devanagari::spec_profile(),
            Script::Bengali => crate::bengali::spec_profile(),
            Script::Tamil => crate::tamil::spec_profile(),
            _ => Profile::empty(self.spec_name()),
        }
    }

    /// The scripts, in the order in which they are listed.
    pub fn all() -> (scripts: Vec<Script>)
        ensures
            scripts@ == Script::spec_all(),
    {
        let scripts: Vec<Script> = vec![
            Script::Devanagari,
            Script::Bengali,
            Script::Tamil,
            Script::Telugu,
            Script::Kannada,
            Script::Malayalam,
            Script::Gujarati,
            Script::Odia,
            Script::Punjabi,
        ];
        scripts
    }

    /// The identifier by which the script is selected.
    pub fn name(self) -> (name: &'static str)
        ensures
            name@ == self.spec_name(),
    {
        match self {
            Script::Devanagari => "devanagari",
            Script::Bengali => "bengali",
            Script::Tamil => "tamil",
            Script::Telugu => "telugu",
            Script::Kannada => "kannada",
            Script::Malayalam => "malayalam",
            Script::Gujarati => "gujarati",
            Script::Odia => "odia",
            Script::Punjabi => "punjabi",
        }
    }

    /// The script that an identifier selects, if it selects one.
    pub fn from_name(name: &str) -> (script: Option<Script>)
        ensures
            script == Script::spec_from_name(name@),
    {
        if str_eq(name, "devanagari") {
            Some(Script::Devanagari)
        } else if str_eq(name, "bengali") {
            Some(Script::Bengali)
        } else if str_eq(name, "tamil") {
            Some(Script::Tamil)
        } else if str_eq(name, "telugu") {
            Some(Script::Telugu)
        } else if str_eq(name, "kannada") {
            Some(Script::Kannada)
        } else if str_eq(name, "malayalam") {
            Some(Script::Malayalam)
        } else if str_eq(name, "gujarati") {
            Some(Script::Gujarati)
        } else if str_eq(name, "odia") {
            Some(Script::Odia)
        } else if str_eq(name, "punjabi") {
            Some(Script::Punjabi)
        } else {
            None
        }
    }

    /// The name of the script as it is written in running text.
    pub fn title(self) -> (title: &'static str)
        ensures
            title@ == self.spec_title(),
    {
        match self {
            Script::Devanagari => "Devanagari",
            Script::Bengali => "Bengali",
            Script::Tamil => "Tamil",
            Script::Telugu => "Telugu",
            Script::Kannada => "Kannada",
            Script::Malayalam => "Malayalam",
            Script::Gujarati => "Gujarati",
            Script::Odia => "Odia",
            Script::Punjabi => "Punjabi",
        }
    }

    /// Whether the script has a table.
    pub fn is_implemented(self) -> (yes: bool)
        ensures
            yes == self.spec_is_implemented(),
    {
        match self {
            Script::Devanagari => true,
            Script::Bengali => true,
            Script::Tamil => true,
            _ => false,
        }
    }

    /// The sentence that says of the script that it has no table yet.
    pub fn notice(self) -> (notice: String)
        ensures
            notice@ == self.spec_notice(),
    {
        let mut notice: String = self.title().to_owned();
        notice.append(NOT_IMPLEMENTED);
        notice
    }

    /// The first and the last codepoint of the block of the script.
    pub fn block(self) -> (block: (char, char))
        ensures
            block == self.spec_block(),
    {
        match self {
            Script::Devanagari => (crate::devanagari::BLOCK_FIRST, crate::devanagari::BLOCK_LAST),
            Script::Bengali => (crate::bengali::BLOCK_FIRST, crate::bengali::BLOCK_LAST),
            Script::Tamil => (crate::tamil::BLOCK_FIRST, crate::tamil::BLOCK_LAST),
            Script::Telugu => ('\u{0c00}', '\u{0c7f}'),
            Script::Kannada => ('\u{0c80}', '\u{0cff}'),
            Script::Malayalam => ('\u{0d00}', '\u{0d7f}'),
            Script::Gujarati => ('\u{0a80}', '\u{0aff}'),
            Script::Odia => ('\u{0b00}', '\u{0b7f}'),
            Script::Punjabi => ('\u{0a00}', '\u{0a7f}'),
        }
    }

    /// The description of the script.
    pub fn profile(self) -> (profile: ScriptProfile)
        ensures
            profile@ == self.spec_profile(),
    {
        match self {
            Script::Devanagari => crate::devanagari::profile(),
            Script::Bengali => crate::bengali::profile(),
            Script::Tamil => crate::tamil::profile(),
            _ => ScriptProfile::new(self.name()),
        }
    }
}

/// The identifiers of the scripts of a list, in the order of the list, with a
/// comma between one and the next.
pub open spec fn joined_names(scripts: Seq<Script>) -> Seq<char>
    decreases scripts.len(),
{
    if scripts.len() == 0 {
        Seq::empty()
    } else if scripts.len() == 1 {
        scripts[0].spec_name()
    } else {
        joined_names(scripts.drop_last()) + seq![','] + scripts.last().spec_name()
    }
}

/// The description that an identifier selects, if it selects a script.
pub fn lookup_profile(name: &str) -> (profile: Option<ScriptProfile>)
    ensures
        match Script::spec_from_name(name@) {
            Some(script) => profile is Some && profile->0@ == script.spec_profile(),
            None => profile is None,
        },
{
    match Script::from_name(name) {
        Some(script) => Some(script.profile()),
        None => None,
    }
}

/// Every script is selected by its own identifier.
pub proof fn lemma_name_selects_script(script: Script)
    ensures
        Script::spec_from_name(script.spec_name()) == Some(script),
{
    reveal_strlit("devanagari");
    reveal_strlit("bengali");
    reveal_strlit("tamil");
    reveal_strlit("telugu");
    reveal_strlit("kannada");
    reveal_strlit("malayalam");
    reveal_strlit("gujarati");
    reveal_strlit("odia");
    reveal_strlit("punjabi");
    // The identifiers differ in length, or in their first letter.
    assert("devanagari"@.len() == 10);
    assert("bengali"@.len() == 7 && "bengali"@[0] == 'b');
    assert("tamil"@.len() == 5);
    assert("telugu"@.len() == 6);
    assert("kannada"@.len() == 7 && "kannada"@[0] == 'k');
    assert("malayalam"@.len() == 9);
    assert("gujarati"@.len() == 8);
    assert("odia"@.len() == 4);
    assert("punjabi"@.len() == 7 && "punjabi"@[0] == 'p');
}

/// An identifier selects at most the script whose identifier it is.
pub proof fn lemma_selected_script_has_name(name: Seq<char>)
    ensures
        Script::spec_from_name(name) matches Some(script) ==> script.spec_name() == name,
{
}

/// The description of every script meets the rules of its data.
pub proof fn lemma_script_is_well_formed(script: Script)
    ensures
        script.spec_profile().wf(),
{
    match script {
        Script::Devanagari => crate::devanagari::lemma_well_formed(),
        Script::Bengali => crate::bengali::lemma_well_formed(),
        Script::Tamil => crate::tamil::lemma_well_formed(),
        _ => {},
    }
}

/// The description of a script speaks of codepoints of the script's block
/// only.
pub proof fn lemma_script_keeps_to_block(script: Script, c: char)
    ensures
        script.spec_profile().mentions(c) ==> script.spec_in_block(c),
{
    match script {
        Script::Devanagari => crate::devanagari::lemma_keeps_to_block(c),
        Script::Bengali => crate::bengali::lemma_keeps_to_block(c),
        Script::Tamil => crate::tamil::lemma_keeps_to_block(c),
        _ => {},
    }
}

/// What the description of a script writes is made of codepoints that it
/// says nothing about.
pub proof fn lemma_script_is_closed(script: Script)
    ensures
        script.spec_profile().is_closed(),
{
    match script {
        Script::Devanagari => crate::devanagari::lemma_closed(),
        Script::Bengali => crate::bengali::lemma_closed(),
        Script::Tamil => crate::tamil::lemma_closed(),
        _ => {},
    }
}

/// The sentences of the scripts that have no table yet, written out.
pub proof fn lemma_notices()
    ensures
        Script::Telugu.spec_notice() == "Telugu to IAST not fully implemented yet"@,
        Script::Kannada.spec_notice() == "Kannada to IAST not fully implemented yet"@,
        Script::Malayalam.spec_notice() == "Malayalam to IAST not fully implemented yet"@,
        Script::Gujarati.spec_notice() == "Gujarati to IAST not fully implemented yet"@,
        Script::Odia.spec_notice() == "Odia to IAST not fully implemented yet"@,
        Script::Punjabi.spec_notice() == "Punjabi to IAST not fully implemented yet"@,
{
    reveal_strlit(" to IAST not fully implemented yet");
    reveal_strlit("Telugu");
    reveal_strlit("Kannada");
    reveal_strlit("Malayalam");
    reveal_strlit("Gujarati");
    reveal_strlit("Odia");
    reveal_strlit("Punjabi");
    reveal_strlit("Telugu to IAST not fully implemented yet");
    reveal_strlit("Kannada to IAST not fully implemented yet");
    reveal_strlit("Malayalam to IAST not fully implemented yet");
    reveal_strlit("Gujarati to IAST not fully implemented yet");
    reveal_strlit("Odia to IAST not fully implemented yet");
    reveal_strlit("Punjabi to IAST not fully implemented yet");
}

} // verus!
