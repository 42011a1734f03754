//! Erases the type syntax of one TypeScript module and prints what remains as
//! plain JavaScript.
//!
//! A request is self-contained: it takes a module name and a source text, owns
//! everything it builds from them, and gives back the output or a classified
//! failure. Nothing is kept between requests.

use crate::config::{EmitterConfig, ParserOptions};
use crate::errors::{status, status_spec, Error};
use crate::source::lemma_registered_text_length;
use crate::text::{decode_slice, decoded};
use crate::transpiler::{
    lemma_failure_classes,
    positions_within,
    transpile_with,
    transpiled,
    Transpiled,
    TranspiledView,
};
use vstd::prelude::*;
use vstd::utf8::valid_utf8;

pub mod config;
pub mod diagnostics;
pub mod emitter;
pub mod errors;
pub mod hygiene;
pub mod parser;
pub mod source;
pub mod survey;
pub mod text;
pub mod transpiler;

verus! {

/// What the request for a module name and a source text, both handed in as
/// bytes, gives back.
///
/// Both must be valid UTF-8. A name that is not ends the request with
/// `Error::InvalidString`, a text that is not with `Error::UTF8InvalidSlice`;
/// the name is looked at first, and in neither case does any stage of the
/// pipeline run, so there are no diagnostics. Otherwise the request is the one
/// for the decoded name and text with the standard options.
pub open spec fn requested(file_name: Seq<u8>, content: Seq<u8>) -> TranspiledView {
    match (decoded(file_name), decoded(content)) {
        (None, _) => TranspiledView { output: Err(Error::InvalidString), diagnostics: seq![] },
        (Some(_), None) => TranspiledView {
            output: Err(Error::UTF8InvalidSlice),
            diagnostics: seq![],
        },
        (Some(name), Some(text)) => transpiled(
            name,
            text,
            ParserOptions::standard(),
            EmitterConfig::standard(),
        ),
    }
}

/// The status code of the request for a module name and a source text, both
/// handed in as bytes: zero where it succeeds, the code of its failure
/// otherwise.
pub open spec fn requested_status(file_name: Seq<u8>, content: Seq<u8>) -> i8 {
    status_spec(requested(file_name, content).output)
}

/// Transpiles one TypeScript module whose name and text come as bytes, and
/// gives back the outcome with the diagnostics of the request.
pub fn transpile_bytes(file_name: &[u8], content: &[u8]) -> (out: Transpiled)
    ensures
        out@ == requested(file_name@, content@),
        positions_within(out, content@.len() as int),
{
    let name = match decode_slice(file_name) {
        Some(name) => name,
        None => {
            let out = Transpiled { output: Err(Error::InvalidString), diagnostics: Vec::new() };
            assert(out@.diagnostics =~= seq![]);
            return out;
        },
    };
    let text = match decode_slice(content) {
        Some(text) => text,
        None => {
            let out = Transpiled { output: Err(Error::UTF8InvalidSlice), diagnostics: Vec::new() };
            assert(out@.diagnostics =~= seq![]);
            return out;
        },
    };
    let options = ParserOptions::default();
    let config = EmitterConfig::default();
    proof {
        lemma_registered_text_length(text@);
    }
    transpile_with(name, text, &options, &config)
}

/// Transpiles one TypeScript module whose name and text come as bytes, and
/// gives back nothing but the status code of the request: zero where it
/// succeeded, the code of its failure otherwise.
pub fn transpile_module(file_name: &[u8], content: &[u8]) -> (code: i8)
    ensures
        code == requested_status(file_name@, content@),
        0 <= code <= 4,
{
    let out = transpile_bytes(file_name, content);
    status(&out.output)
}

/// Bytes that are no text are refused before anything is parsed: the request
/// has the status of the argument that failed, the name first, and no
/// diagnostics, whatever the other argument holds.
pub proof fn lemma_invalid_input_is_refused_first(file_name: Seq<u8>, content: Seq<u8>)
    requires
        !valid_utf8(file_name) || !valid_utf8(content),
    ensures
        !valid_utf8(file_name) ==> requested_status(file_name, content)
            == Error::InvalidString.code_spec(),
        valid_utf8(file_name) ==> requested_status(file_name, content)
            == Error::UTF8InvalidSlice.code_spec(),
        requested(file_name, content).diagnostics.len() == 0,
{
}

/// A request whose name and text are both text never has the status of an
/// invalid input: it succeeds, or it fails in the pipeline.
pub proof fn lemma_valid_input_reaches_the_pipeline(file_name: Seq<u8>, content: Seq<u8>)
    requires
        valid_utf8(file_name),
        valid_utf8(content),
    ensures
        0 <= requested_status(file_name, content) <= 2,
{
    lemma_failure_classes(
        decoded(file_name)->Some_0,
        decoded(content)->Some_0,
        ParserOptions::standard(),
        EmitterConfig::standard(),
    );
}

} // verus!
