//! The pipeline: a source text goes in, plain JavaScript or a classified
//! failure comes out.
//!
//! The stages run in a fixed order, each on what the one before has left: the
//! text is registered, parsed, resolved, stripped of its type syntax, renamed
//! where names would collide, fixed for printing, and emitted. The first stage
//! that fails ends the request.

use crate::config::{EmitterConfig, ParserOptions};
use crate::diagnostics::{
    diagnostic_views,
    reached_error,
    reached_error_spec,
    Diagnostic,
    DiagnosticView,
    Mapping,
    Severity,
};
use crate::emitter::{emit, emit_result, mapping_table, mappings_spec, new_line_spec, Emitted};
use crate::errors::Error;
use crate::hygiene::{apply_passes, passes_applied};
use crate::parser::{
    described,
    parse,
    parse_result,
    parsed_without_error,
    report,
    reported,
    Parsed,
    SyntaxFault,
};
use crate::source::{
    register_source,
    registered,
    registered_text,
    FIRST_POSITION,
    MAX_SOURCE_BYTES,
};
use crate::survey::{lemma_refusals, refusals, report_refusals};
use crate::text::{decode, decoded};
use vstd::prelude::*;
use vstd::utf8::encode_utf8;

verus! {

/// What a request that succeeded has written.
#[derive(Debug, Clone, PartialEq, Eq)]
pub struct Output {
    /// The module as plain JavaScript.
    pub code: String,
    /// The position-mapping table, in the order in which the output was written.
    pub mappings: Vec<Mapping>,
}

/// An output as contracts speak of it.
pub struct OutputView {
    pub code: Seq<char>,
    pub mappings: Seq<Mapping>,
}

impl View for Output {
    type V = OutputView;

    open spec fn view(&self) -> OutputView {
        OutputView { code: self.code@, mappings: self.mappings@ }
    }
}

/// Everything that a request gives back.
#[derive(Debug, PartialEq, Eq)]
pub struct Transpiled {
    /// The output, or the class of the failure.
    pub output: Result<Output, Error>,
    /// What was found on the way, in the order in which it was found.
    pub diagnostics: Vec<Diagnostic>,
}

/// What a request gives back, as contracts speak of it.
pub struct TranspiledView {
    pub output: Result<OutputView, Error>,
    pub diagnostics: Seq<DiagnosticView>,
}

impl View for Transpiled {
    type V = TranspiledView;

    open spec fn view(&self) -> TranspiledView {
        TranspiledView {
            output: match self.output {
                Ok(output) => Ok(output@),
                Err(error) => Err(error),
            },
            diagnostics: diagnostic_views(self.diagnostics@),
        }
    }
}

/// Whether parsing has failed: no tree was built, or one of the diagnostics is
/// an error.
pub open spec fn parse_failed(tree_built: bool, diagnostics: Seq<DiagnosticView>) -> bool {
    !tree_built || reached_error_spec(diagnostics)
}

/// Decides whether a request goes on after parsing. It fails with
/// `Error::Parse` where no tree was built, and also where one was built but a
/// diagnostic of the parse is an error: what the parser got over is still a
/// syntax error.
pub fn parse_verdict(tree_built: bool, diagnostics: &Vec<Diagnostic>) -> (verdict: Result<
    (),
    Error,
>)
    ensures
        verdict is Err <==> parse_failed(tree_built, diagnostic_views(diagnostics@)),
        verdict matches Err(error) ==> error == Error::Parse,
{
    if !tree_built || reached_error(diagnostics) {
        Err(Error::Parse)
    } else {
        Ok(())
    }
}

/// The text of the emitted bytes, or `Error::Emission` where they are no text.
pub open spec fn output_text(code: Seq<u8>) -> Result<Seq<char>, Error> {
    match decoded(code) {
        Some(text) => Ok(text),
        None => Err(Error::Emission),
    }
}

/// Reads the emitted bytes as text. Bytes that are not valid UTF-8 are a
/// failure of the emitter: they are never handed on as output.
pub fn decode_output(code: Vec<u8>) -> (text: Result<String, Error>)
    ensures
        match output_text(code@) {
            Ok(expected) => text matches Ok(t) && t@ == expected,
            Err(error) => text == Err::<String, Error>(error),
        },
{
    match decode(code) {
        Some(text) => Ok(text),
        None => Err(Error::Emission),
    }
}

/// The message of the diagnostic for emitted bytes that are no text.
pub open spec fn malformed_output_message() -> Seq<char> {
    "the emitter wrote bytes that are not valid UTF-8"@
}

/// The diagnostic of a failed emission. It stands at the start of the text: an
/// emission fails on the tree as a whole.
pub open spec fn emission_failure(message: Seq<char>) -> DiagnosticView {
    DiagnosticView { severity: Severity::Error, message, start: 0, end: 0 }
}

/// The message of the diagnostic for a text that is too long.
pub open spec fn oversized_source_message() -> Seq<char> {
    "the source text is too long to give each byte a position"@
}

/// The diagnostic for a text that is too long. It stands at the start of the
/// text.
pub open spec fn oversized_source() -> DiagnosticView {
    DiagnosticView {
        severity: Severity::Error,
        message: oversized_source_message(),
        start: 0,
        end: 0,
    }
}

/// Whether `content` is short enough for every byte of it to get a position.
pub open spec fn fits(content: Seq<char>) -> bool {
    encode_utf8(content).len() <= MAX_SOURCE_BYTES
}

/// What the request for `content` under `file_name` gives back.
///
/// A text that is too long for the registry ends the request with
/// `Error::Parse` and one diagnostic. Any other text is registered and parsed.
/// Where parsing has failed, the request ends with `Error::Parse` and the
/// diagnostics of the parse. Otherwise the passes are applied; where the tree
/// holds a parameter property declared with a binding pattern, or a module
/// under a quoted name without `declare`, the request ends with `Error::Parse`
/// and one more diagnostic for each. Otherwise the tree is emitted; a failure
/// of the emitter, or emitted bytes that are no text, end the request with
/// `Error::Emission` and one more diagnostic. Otherwise the request succeeds
/// with the text of the emitted bytes and the position-mapping table.
pub open spec fn transpiled(
    file_name: Seq<char>,
    content: Seq<char>,
    options: ParserOptions,
    config: EmitterConfig,
) -> TranspiledView {
    if fits(content) {
        transpiled_fitting(file_name, content, options, config)
    } else {
        TranspiledView { output: Err(Error::Parse), diagnostics: seq![oversized_source()] }
    }
}

/// What the request for a text that the registry can take gives back.
pub open spec fn transpiled_fitting(
    file_name: Seq<char>,
    content: Seq<char>,
    options: ParserOptions,
    config: EmitterConfig,
) -> TranspiledView {
    let unit = registered(file_name, content);
    let parsed = parse_result(unit, options);
    let diagnostics = reported(parsed, unit);
    match parsed.outcome {
        Ok(program) if !reached_error_spec(diagnostics) => match passes_applied(
            program,
            parsed.comments,
        ) {
            Ok((fixed, comments)) => match emit_result(
                fixed,
                unit,
                comments,
                config,
                new_line_spec(),
            ) {
                Ok(emitted) => match output_text(emitted.code@) {
                    Ok(code) => TranspiledView {
                        output: Ok(
                            OutputView { code, mappings: mappings_spec(emitted.mappings@, unit) },
                        ),
                        diagnostics,
                    },
                    Err(error) => TranspiledView {
                        output: Err(error),
                        diagnostics: diagnostics.push(emission_failure(malformed_output_message())),
                    },
                },
                Err(message) => TranspiledView {
                    output: Err(Error::Emission),
                    diagnostics: diagnostics.push(emission_failure(message@)),
                },
            },
            Err(found) => TranspiledView {
                output: Err(Error::Parse),
                diagnostics: diagnostics + refusals(found, unit),
            },
        },
        _ => TranspiledView { output: Err(Error::Parse), diagnostics },
    }
}

/// Whether every position that a request gives back lies in a text of `length`
/// bytes: each diagnostic begins no later than it ends and ends no later than
/// the text, and each entry of the mapping table that leads into the text leads
/// to an offset of it.
pub open spec fn positions_within(out: Transpiled, length: int) -> bool {
    &&& forall|i: int|
        0 <= i < out.diagnostics.len() ==> (#[trigger] out.diagnostics[i]).start
            <= out.diagnostics[i].end <= length
    &&& out.output matches Ok(output) ==> forall|i: int|
        0 <= i < output.mappings.len() ==> ((#[trigger] output.mappings[i]).source matches Some(
            offset,
        ) ==> offset <= length)
}

/// The offset into a registered text of `length` bytes that lies nearest to a
/// position of the parser: the position less the first position of the text,
/// kept within the text.
pub open spec fn offset_in_text(position: u32, length: int) -> int {
    if position < FIRST_POSITION {
        0
    } else if position - FIRST_POSITION > length {
        length
    } else {
        position - FIRST_POSITION
    }
}

/// Whether `out` is the outcome of a request whose parser stopped at `fault`,
/// on a registered text of `length` bytes: the request has failed with
/// `Error::Parse`, and the last of its diagnostics is the error that stopped
/// the parser, with the parser's message, at the offsets nearest to the
/// parser's positions.
pub open spec fn stopped_at(out: TranspiledView, fault: SyntaxFault, length: int) -> bool {
    &&& out.output == Err::<OutputView, Error>(Error::Parse)
    &&& out.diagnostics.len() > 0
    &&& out.diagnostics.last().severity == Severity::Error
    &&& out.diagnostics.last().message == fault.message@
    &&& out.diagnostics.last().start == offset_in_text(fault.lo, length)
    &&& out.diagnostics.last().end == if offset_in_text(fault.hi, length) < offset_in_text(
        fault.lo,
        length,
    ) {
        offset_in_text(fault.lo, length)
    } else {
        offset_in_text(fault.hi, length)
    }
}

/// Whether a source text is short enough for every byte of it to get a
/// position.
pub fn source_fits(content: &str) -> (fitting: bool)
    ensures
        fitting == fits(content@),
{
    content.as_bytes().len() <= MAX_SOURCE_BYTES
}

/// Transpiles one module: `content`, registered under `file_name`, is read with
/// `options`, stripped of its type syntax and printed with `config`. The
/// outcome comes with the diagnostics of the request.
pub fn transpile_with(
    file_name: String,
    content: String,
    options: &ParserOptions,
    config: &EmitterConfig,
) -> (out: Transpiled)
    ensures
        out@ == transpiled(file_name@, content@, *options, *config),
        positions_within(out, encode_utf8(registered_text(content@)).len() as int),
        fits(content@) ==> (parse_result(
            registered(file_name@, content@),
            *options,
        ).outcome matches Err(fault) ==> stopped_at(
            out@,
            fault,
            encode_utf8(registered_text(content@)).len() as int,
        )),
{
    if !source_fits(content.as_str()) {
        let mut diagnostics: Vec<Diagnostic> = Vec::new();
        diagnostics.push(
            Diagnostic {
                severity: Severity::Error,
                message: "the source text is too long to give each byte a position".to_string(),
                start: 0,
                end: 0,
            },
        );
        assert(diagnostic_views(diagnostics@) =~= seq![oversized_source()]);
        return Transpiled { output: Err(Error::Parse), diagnostics };
    }
    let unit = register_source(file_name, content);
    let parsed = parse(&unit, options);
    let mut diagnostics = report(&parsed, &unit);
    let ghost found = diagnostic_views(diagnostics@);
    let ghost faults = parsed.recovered@;
    let Parsed { outcome, recovered: _, comments } = parsed;
    let verdict = parse_verdict(outcome.is_ok(), &diagnostics);
    let program = match (outcome, verdict) {
        (Ok(program), Ok(())) => program,
        _ => {
            return Transpiled { output: Err(Error::Parse), diagnostics };
        },
    };
    assert(faults.len() == 0) by {
        if faults.len() > 0 {
            assert(found[0] == described(faults[0], unit));
        }
    }
    assert(parsed_without_error(program, unit, *options));
    let (program, comments) = match apply_passes(program, comments) {
        Ok(done) => done,
        Err(found) => {
            report_refusals(&found, &unit, &mut diagnostics);
            return Transpiled { output: Err(Error::Parse), diagnostics };
        },
    };
    match emit(&program, &unit, comments, config) {
        Ok(emitted) => {
            let Emitted { code, mappings } = emitted;
            match decode_output(code) {
                Ok(code) => {
                    let mappings = mapping_table(&mappings, &unit);
                    Transpiled { output: Ok(Output { code, mappings }), diagnostics }
                },
                Err(error) => {
                    diagnostics.push(
                        Diagnostic {
                            severity: Severity::Error,
                            message: "the emitter wrote bytes that are not valid UTF-8".to_string(),
                            start: 0,
                            end: 0,
                        },
                    );
                    assert(diagnostic_views(diagnostics@) =~= found.push(
                        emission_failure(malformed_output_message()),
                    ));
                    Transpiled { output: Err(error), diagnostics }
                },
            }
        },
        Err(message) => {
            let ghost text = message@;
            diagnostics.push(Diagnostic { severity: Severity::Error, message, start: 0, end: 0 });
            assert(diagnostic_views(diagnostics@) =~= found.push(emission_failure(text)));
            Transpiled { output: Err(Error::Emission), diagnostics }
        },
    }
}

/// What `transpile_module` returns for `content` under `file_name`: the code
/// that the request with the standard options writes, or the class of its
/// failure.
pub open spec fn module_transpiled(file_name: Seq<char>, content: Seq<char>) -> Result<
    Seq<char>,
    Error,
> {
    match transpiled(
        file_name,
        content,
        ParserOptions::standard(),
        EmitterConfig::standard(),
    ).output {
        Ok(output) => Ok(output.code),
        Err(error) => Err(error),
    }
}

/// Whether `result` is what the request for `content` under `file_name` returns.
pub open spec fn is_module_transpiled(
    result: Result<String, Error>,
    file_name: Seq<char>,
    content: Seq<char>,
) -> bool {
    match module_transpiled(file_name, content) {
        Ok(code) => result matches Ok(text) && text@ == code,
        Err(error) => result == Err::<String, Error>(error),
    }
}

/// Transpiles one TypeScript module to plain JavaScript: the text is read as
/// plain TypeScript in the syntax of ES2022 and printed as readable ES2022.
///
/// It fails with `Error::Parse` where the text has a syntax error or is too
/// long, and with `Error::Emission` where the tree cannot be printed.
pub fn transpile_module(file_name: String, content: String) -> (result: Result<String, Error>)
    ensures
        is_module_transpiled(result, file_name@, content@),
{
    let options = ParserOptions::default();
    let config = EmitterConfig::default();
    match transpile_with(file_name, content, &options, &config).output {
        Ok(output) => Ok(output.code),
        Err(error) => Err(error),
    }
}

/// A request is a function of its arguments: two outcomes of `transpile_with`
/// for the same name, text, options and configuration are the same outcome,
/// output and mappings and diagnostics alike.
pub proof fn lemma_transpile_deterministic(
    first: Transpiled,
    second: Transpiled,
    file_name: Seq<char>,
    content: Seq<char>,
    options: ParserOptions,
    config: EmitterConfig,
)
    requires
        first@ == transpiled(file_name, content, options, config),
        second@ == transpiled(file_name, content, options, config),
    ensures
        first@ == second@,
        first.output is Ok <==> second.output is Ok,
        first.output matches Ok(a) ==> second.output matches Ok(b) && a.code@ == b.code@
            && a.mappings@ == b.mappings@,
        first.output matches Err(e) ==> second.output == Err::<Output, Error>(e),
        diagnostic_views(first.diagnostics@) == diagnostic_views(second.diagnostics@),
{
}

/// Two results of `transpile_module` for the same name and text are the same
/// result: both the same code, or both the same failure.
pub proof fn lemma_module_deterministic(
    first: Result<String, Error>,
    second: Result<String, Error>,
    file_name: Seq<char>,
    content: Seq<char>,
)
    requires
        is_module_transpiled(first, file_name, content),
        is_module_transpiled(second, file_name, content),
    ensures
        first is Ok <==> second is Ok,
        first matches Ok(a) ==> second matches Ok(b) && a@ == b@,
        first matches Err(e) ==> second == Err::<String, Error>(e),
{
}

/// A request fails in one of two ways only: it never reports that its input
/// was no text, since its input is text already.
pub proof fn lemma_failure_classes(
    file_name: Seq<char>,
    content: Seq<char>,
    options: ParserOptions,
    config: EmitterConfig,
)
    ensures
        transpiled(file_name, content, options, config).output matches Err(e) ==> e == Error::Parse
            || e == Error::Emission,
{
}

/// Where the parser has stopped at an error, the request fails with
/// `Error::Parse`, and that error is the last of its diagnostics, after the
/// errors that the parser got over before it.
pub proof fn lemma_stopping_error_is_last(
    file_name: Seq<char>,
    content: Seq<char>,
    options: ParserOptions,
    config: EmitterConfig,
)
    requires
        fits(content),
        parse_result(registered(file_name, content), options).outcome is Err,
    ensures
        transpiled(file_name, content, options, config).output == Err::<OutputView, Error>(
            Error::Parse,
        ),
        transpiled(file_name, content, options, config).diagnostics.len() == parse_result(
            registered(file_name, content),
            options,
        ).recovered@.len() + 1,
        transpiled(file_name, content, options, config).diagnostics.last() == described(
            parse_result(registered(file_name, content), options).outcome->Err_0,
            registered(file_name, content),
        ),
{
}

/// A request that has failed has said why: at least one of its diagnostics is
/// an error. And a request with an error among the diagnostics of its parse
/// has failed.
pub proof fn lemma_failure_is_reported(
    file_name: Seq<char>,
    content: Seq<char>,
    options: ParserOptions,
    config: EmitterConfig,
)
    ensures
        transpiled(file_name, content, options, config).output is Err <==> reached_error_spec(
            transpiled(file_name, content, options, config).diagnostics,
        ),
{
    let out = transpiled(file_name, content, options, config);
    if !fits(content) {
        assert(out.diagnostics[0].severity == Severity::Error);
    } else {
        let unit = registered(file_name, content);
        let parsed = parse_result(unit, options);
        let found = reported(parsed, unit);
        if parsed.outcome is Err {
            let last = found.len() - 1;
            assert(found[last].severity == Severity::Error);
        } else if !reached_error_spec(found) {
            match passes_applied(parsed.outcome->Ok_0, parsed.comments) {
                Err(surveyed) => {
                    lemma_refusals(surveyed, unit);
                    let first = found.len() as int;
                    assert(out.diagnostics[first] == refusals(surveyed, unit)[0]);
                    assert(out.diagnostics[first].severity == Severity::Error);
                },
                Ok(_) => {
                    if out.output is Err {
                        let last = out.diagnostics.len() - 1;
                        assert(out.diagnostics[last].severity == Severity::Error);
                    }
                },
            }
        }
    }
}

} // verus!
