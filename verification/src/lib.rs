//! Transliteration of text in Brahmic scripts into Roman letters after the
//! IAST convention.
//!
//! A script is described by a [`profile::ScriptProfile`]; the rewrite of a
//! text under a description is [`engine::rewrite`]. The functions of this
//! module select a built-in script by its identifier.

use vstd::prelude::*;
use crate::engine::lemma_foreign_text_unchanged;
use crate::engine::lemma_rewrite_idempotent;
use crate::engine::rewrite;
use crate::script::joined_names;
use crate::script::lemma_name_selects_script;
use crate::script::lemma_script_is_closed;
use crate::script::lemma_script_keeps_to_block;
use crate::script::Script;

pub mod bengali;
pub mod devanagari;
pub mod engine;
pub mod profile;
pub mod script;
pub mod symbol;
mod table;
pub mod tamil;
pub mod text;

verus! {

/// What is answered when an identifier selects no script.
pub const UNSUPPORTED_SCRIPT: &'static str = "Unsupported script";

/// The identifiers of the scripts, joined by commas.
pub const SUPPORTED_SCRIPTS: &'static str =
    "devanagari,bengali,tamil,telugu,kannada,malayalam,gujarati,odia,punjabi";

/// Why a text was not transliterated.
#[derive(Debug, PartialEq, Eq)]
pub enum TransliterationError {
    /// The identifier, which is carried along, selects no script.
    UnsupportedScript(String),
    /// The script is known, but it has no table yet.
    NotImplemented(Script),
}

impl TransliterationError {
    /// The sentence that stands for the error where only a text can be
    /// answered.
    pub open spec fn spec_message(self) -> Seq<char> {
        match self {
            TransliterationError::UnsupportedScript(_) => UNSUPPORTED_SCRIPT@,
            TransliterationError::NotImplemented(script) => script.spec_notice(),
        }
    }

    /// The sentence that stands for the error where only a text can be
    /// answered.
    pub fn message(&self) -> (message: String)
        ensures
            message@ == self.spec_message(),
    {
        match self {
            TransliterationError::UnsupportedScript(_) => UNSUPPORTED_SCRIPT.to_owned(),
            TransliterationError::NotImplemented(script) => script.notice(),
        }
    }
}

/// What a request for the script `script` is answered with, where only a
/// text can be answered: the rewrite of `text` for a script with a table, a
/// fixed sentence for a script without one and for an identifier that selects
/// no script.
pub open spec fn reply(text: Seq<char>, script: Seq<char>) -> Seq<char> {
    match Script::spec_from_name(script) {
        None => UNSUPPORTED_SCRIPT@,
        Some(selected) => if selected.spec_is_implemented() {
            rewrite(selected.spec_profile(), text)
        } else {
            selected.spec_notice()
        },
    }
}

/// Transliterates `text` from the script that `script` selects, or says why
/// it does not.
pub fn try_transliterate(text: &str, script: &str) -> (done: Result<String, TransliterationError>)
    ensures
        match Script::spec_from_name(script@) {
            None => done matches Err(TransliterationError::UnsupportedScript(name)) && name@
                == script@,
            Some(selected) => if selected.spec_is_implemented() {
                done matches Ok(out) && out@ == rewrite(selected.spec_profile(), text@)
            } else {
                done matches Err(TransliterationError::NotImplemented(refused)) && refused
                    == selected
            },
        },
        match done {
            Ok(out) => out@ == reply(text@, script@),
            Err(error) => error.spec_message() == reply(text@, script@),
        },
{
    match Script::from_name(script) {
        None => Err(TransliterationError::UnsupportedScript(script.to_owned())),
        Some(selected) => {
            if selected.is_implemented() {
                Ok(selected.profile().transliterate(text))
            } else {
                Err(TransliterationError::NotImplemented(selected))
            }
        },
    }
}

/// Transliterates `text` from the script that `script` selects. A script
/// without a table, and an identifier that selects no script, are answered
/// with a fixed sentence.
pub fn transliterate(text: &str, script: &str) -> (out: String)
    ensures
        out@ == reply(text@, script@),
{
    match try_transliterate(text, script) {
        Ok(out) => out,
        Err(error) => error.message(),
    }
}

/// The identifiers of the scripts that can be selected, joined by commas.
pub fn supported_scripts() -> (out: String)
    ensures
        out@ == SUPPORTED_SCRIPTS@,
{
    SUPPORTED_SCRIPTS.to_owned()
}

/// The list of supported scripts holds the identifier of every script, in
/// order, with a comma between one and the next.
pub proof fn lemma_supported_scripts_lists_all()
    ensures
        SUPPORTED_SCRIPTS@ == joined_names(Script::spec_all()),
{
    reveal_strlit("devanagari,bengali,tamil,telugu,kannada,malayalam,gujarati,odia,punjabi");
    reveal_strlit("devanagari");
    reveal_strlit("bengali");
    reveal_strlit("tamil");
    reveal_strlit("telugu");
    reveal_strlit("kannada");
    reveal_strlit("malayalam");
    reveal_strlit("gujarati");
    reveal_strlit("odia");
    reveal_strlit("punjabi");
    // The list grows by one script at a time.
    let all = Script::spec_all();
    let s1 = all.take(1);
    let s2 = all.take(2);
    let s3 = all.take(3);
    let s4 = all.take(4);
    let s5 = all.take(5);
    let s6 = all.take(6);
    let s7 = all.take(7);
    let s8 = all.take(8);
    assert(s2.drop_last() =~= s1);
    assert(s3.drop_last() =~= s2);
    assert(s4.drop_last() =~= s3);
    assert(s5.drop_last() =~= s4);
    assert(s6.drop_last() =~= s5);
    assert(s7.drop_last() =~= s6);
    assert(s8.drop_last() =~= s7);
    assert(all.drop_last() =~= s8);
    assert(joined_names(s1) =~= "devanagari"@);
    assert(joined_names(s2) =~= joined_names(s1) + seq![','] + "bengali"@);
    assert(joined_names(s3) =~= joined_names(s2) + seq![','] + "tamil"@);
    assert(joined_names(s4) =~= joined_names(s3) + seq![','] + "telugu"@);
    assert(joined_names(s5) =~= joined_names(s4) + seq![','] + "kannada"@);
    assert(joined_names(s6) =~= joined_names(s5) + seq![','] + "malayalam"@);
    assert(joined_names(s7) =~= joined_names(s6) + seq![','] + "gujarati"@);
    assert(joined_names(s8) =~= joined_names(s7) + seq![','] + "odia"@);
    assert(joined_names(all) =~= joined_names(s8) + seq![','] + "punjabi"@);
}

/// An identifier that is none of the nine is answered with the fixed
/// sentence for an unsupported script, whatever the text.
pub proof fn lemma_unknown_script_reply(text: Seq<char>, script: Seq<char>)
    requires
        forall|known: Script| known.spec_name() != script,
    ensures
        reply(text, script) == UNSUPPORTED_SCRIPT@,
{
    if Script::spec_from_name(script) is Some {
        assert(Script::spec_from_name(script)->0.spec_name() == script);
    }
}

/// A script without a table answers every text with its own fixed sentence.
pub proof fn lemma_placeholder_reply(text: Seq<char>, script: Script)
    requires
        !script.spec_is_implemented(),
    ensures
        reply(text, script.spec_name()) == script.spec_notice(),
{
    lemma_name_selects_script(script);
}

/// A script with a table leaves a text unchanged of which it knows no
/// codepoint.
pub proof fn lemma_foreign_text_reply(text: Seq<char>, script: Script)
    requires
        script.spec_is_implemented(),
        script.spec_profile().is_foreign(text),
    ensures
        reply(text, script.spec_name()) == text,
{
    lemma_name_selects_script(script);
    lemma_foreign_text_unchanged(script.spec_profile(), text);
}

/// A script with a table leaves a text unchanged that has no codepoint of
/// the script's block.
pub proof fn lemma_text_outside_block_reply(text: Seq<char>, script: Script)
    requires
        script.spec_is_implemented(),
        forall|i: int| 0 <= i < text.len() ==> !script.spec_in_block(#[trigger] text[i]),
    ensures
        reply(text, script.spec_name()) == text,
{
    assert forall|i: int| 0 <= i < text.len() implies !script.spec_profile().mentions(
        #[trigger] text[i],
    ) by {
        lemma_script_keeps_to_block(script, text[i]);
    }
    lemma_foreign_text_reply(text, script);
}

/// Answering to an answer gives the same answer again, whatever the
/// identifier selects.
pub proof fn lemma_reply_idempotent(text: Seq<char>, script: Seq<char>)
    ensures
        reply(reply(text, script), script) == reply(text, script),
{
    if Script::spec_from_name(script) is Some {
        let selected = Script::spec_from_name(script)->0;
        if selected.spec_is_implemented() {
            lemma_script_is_closed(selected);
            lemma_rewrite_idempotent(selected.spec_profile(), text);
        }
    }
}

} // verus!
