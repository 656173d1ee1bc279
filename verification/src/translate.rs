//! The translation command's decisions and the reading of the provider's
//! reply.
//!
//! The command takes one or two leading language arguments: the first must
//! be a language, and names the target; when the second is a language too,
//! the first becomes the source and the second the target, otherwise the
//! source is left to the provider's detection.  The provider's reply is a
//! JSON array whose first element lists the translated sentence fragments
//! and whose third element names the detected source language.

use vstd::prelude::*;

use crate::lang::{language_code, validate_unit};
use crate::text::{join_strings, joined, string_views};

verus! {

/// The declared shape of `serde_json::Value`, carried opaquely through the
/// reply-reading calls.
#[verifier::external_type_specification]
#[verifier::external_body]
pub struct ExSerdeValue(serde_json::Value);

/// The source and target language of a run of the command, and whether the
/// second argument was consumed as a language: nothing when the first
/// argument is no language; the pair of the two codes when both are; and
/// detection plus the first code when only the first is.
pub open spec fn language_pair(first: Seq<char>, second: Seq<char>) -> Option<
    (Seq<char>, Seq<char>, bool),
> {
    match language_code(first) {
        None => None,
        Some(target) => match language_code(second) {
            Some(second_code) => Some((target, second_code, true)),
            None => Some(("auto"@, target, false)),
        },
    }
}

/// Resolves the one or two leading language arguments to a source and a
/// target language, reporting whether the second argument was consumed as a
/// language or still belongs to the text.
pub fn resolve_translation_languages(first_arg: &String, second_arg: &String) -> (r: Option<
    (&'static str, &'static str, bool),
>)
    ensures
        ({
            let pair = language_pair(first_arg@, second_arg@);
            match r {
                Some(resolved) => pair == Some((resolved.0@, resolved.1@, resolved.2)),
                None => pair is None,
            }
        }),
{
    match validate_unit(first_arg) {
        None => None,
        Some(target) => match validate_unit(second_arg) {
            Some(second_code) => Some((target, second_code, true)),
            None => Some(("auto", target, false)),
        },
    }
}

/// A translated text and the source language the provider detected.
pub struct Translation {
    /// The translated sentences, joined in order.
    pub text: String,
    /// The provider's code for the detected source language.
    pub detected_source_lang: String,
}

/// Joins the translated sentence fragments, in order and with nothing
/// between them, into the reported translation.
pub fn assemble_translation(sentences: &Vec<String>, detected_source_lang: String) -> (r:
    Translation)
    ensures
        r.text@ == joined(string_views(sentences@), Seq::<char>::empty()),
        r.detected_source_lang@ == detected_source_lang@,
{
    let text = join_strings(sentences, "");
    proof {
        reveal_strlit("");
        assert(""@ =~= Seq::<char>::empty());
    }
    Translation { text, detected_source_lang }
}

/// Relies on `serde_json::from_str`: parses the text as JSON, or reports
/// nothing for text that is no JSON.
#[verifier::external_body]
fn parse_json(body: &str) -> Option<serde_json::Value> {
    serde_json::from_str(body).ok()
}

/// Relies on `serde_json::Value::get`: the element of an array at an index,
/// or nothing past the end or off an array.
#[verifier::external_body]
fn json_element(value: &serde_json::Value, index: usize) -> Option<&serde_json::Value> {
    value.get(index)
}

/// Relies on `serde_json::Value::as_str`: the text of a JSON string, or
/// nothing for any other value.
#[verifier::external_body]
fn json_text(value: &serde_json::Value) -> Option<&str> {
    value.as_str()
}

/// Relies on `serde_json::Value::as_array`: how many elements a JSON array
/// has, or nothing for any other value.
#[verifier::external_body]
fn json_array_len(value: &serde_json::Value) -> Option<usize> {
    match value.as_array() {
        Some(items) => Some(items.len()),
        None => None,
    }
}

/// Reads the provider's reply: the translated sentence fragments are taken
/// from the first element, in order, and the detected source language from
/// the third.  A reply of any other shape gives nothing — no shape panics.
/// What the fragments are is the provider's to decide; how they are joined
/// is pinned by [`assemble_translation`].
pub fn parse_translation_response(body: &str) -> (r: Option<Translation>)
{
    let parsed = match parse_json(body) {
        Some(value) => value,
        None => {
            return None;
        },
    };
    let data = match json_element(&parsed, 0) {
        Some(value) => value,
        None => {
            return None;
        },
    };
    let count = match json_array_len(data) {
        Some(n) => n,
        None => {
            return None;
        },
    };
    let mut sentences: Vec<String> = Vec::new();
    let mut i: usize = 0;
    while i < count
        decreases count - i,
    {
        let segment = match json_element(data, i) {
            Some(value) => value,
            None => {
                return None;
            },
        };
        let sentence = match json_element(segment, 0) {
            Some(value) => value,
            None => {
                return None;
            },
        };
        let piece = match json_text(sentence) {
            Some(text) => text,
            None => {
                return None;
            },
        };
        sentences.push(String::from_str(piece));
        i = i + 1;
    }
    let detected = match json_element(&parsed, 2) {
        Some(value) => match json_text(value) {
            Some(text) => String::from_str(text),
            None => {
                return None;
            },
        },
        None => {
            return None;
        },
    };
    Some(assemble_translation(&sentences, detected))
}

} // verus!
