//! Lexing and parsing: from a registered source text to a syntax tree, its
//! comments and the syntax errors found on the way.

use crate::config::{Edition, ParserOptions};
use crate::diagnostics::{diagnostic_views, Diagnostic, DiagnosticView, Severity};
use crate::hygiene::{contexts_of, EMPTY_CONTEXT};
use crate::source::SourceUnit;
use swc_core::common::comments::SingleThreadedComments;
use swc_core::common::Spanned;
use swc_ecmascript::ast::{EsVersion, Program};
use swc_ecmascript::parser::{parse_file_as_module, Syntax};
use vstd::prelude::*;

verus! {

/// An edition of the language as the toolchain names it.
#[verifier::external_type_specification]
#[verifier::external_body]
pub struct ExEsVersion(swc_ecmascript::ast::EsVersion);

/// A syntax error as the parser reports it: its message, and the positions of
/// the registry at which it begins and ends.
pub struct SyntaxFault {
    pub lo: u32,
    pub hi: u32,
    pub message: String,
}

/// What parsing a source unit gives.
pub struct Parsed {
    /// The tree, or the syntax error that stopped the parser.
    pub outcome: Result<Program, SyntaxFault>,
    /// The syntax errors that the parser got over, in the order it met them.
    pub recovered: Vec<SyntaxFault>,
    /// The comments of the text, each attached to its position.
    pub comments: SingleThreadedComments,
}

/// The edition that a value of the toolchain stands for.
pub uninterp spec fn version_of(version: EsVersion) -> Edition;

/// What parsing a source unit as a module gives.
pub uninterp spec fn parse_result(unit: SourceUnit, options: ParserOptions) -> Parsed;

/// Whether `tree` is what the parser builds for `unit` read with `options`,
/// having met no syntax error on the way.
pub open spec fn parsed_without_error(
    tree: Program,
    unit: SourceUnit,
    options: ParserOptions,
) -> bool {
    &&& parse_result(unit, options).outcome matches Ok(built) && built == tree
    &&& parse_result(unit, options).recovered@.len() == 0
}

/// The toolchain's value for an edition: variant for variant.
#[verifier::external_body]
pub(crate) fn toolchain_version(edition: Edition) -> (version: EsVersion)
    ensures
        version_of(version) == edition,
{
    match edition {
        Edition::Es3 => EsVersion::Es3,
        Edition::Es5 => EsVersion::Es5,
        Edition::Es2015 => EsVersion::Es2015,
        Edition::Es2016 => EsVersion::Es2016,
        Edition::Es2017 => EsVersion::Es2017,
        Edition::Es2018 => EsVersion::Es2018,
        Edition::Es2019 => EsVersion::Es2019,
        Edition::Es2020 => EsVersion::Es2020,
        Edition::Es2021 => EsVersion::Es2021,
        Edition::Es2022 => EsVersion::Es2022,
        Edition::Es2023 => EsVersion::Es2023,
        Edition::Es2024 => EsVersion::Es2024,
        Edition::EsNext => EsVersion::EsNext,
    }
}

/// `parse_file_as_module` on the unit's text, read as plain TypeScript
/// (`TsSyntax::default`), with a comment store of its own (`SingleThreadedComments::default`).
/// What comes back (the tree or the error that stopped the parser, the errors
/// it got over, the comments) depends on the unit and the options alone. Each
/// error is handed on as its span (`Spanned::span`) and its message
/// (`SyntaxError::msg`). The parser allocates no syntax context: every
/// identifier of the tree has the empty one.
#[verifier::external_body]
fn parse_module(unit: &SourceUnit, options: &ParserOptions, target: EsVersion) -> (parsed: Parsed)
    requires
        version_of(target) == options.target,
    ensures
        parsed == parse_result(*unit, *options),
        parsed.outcome matches Ok(program) ==> contexts_of(program).subset_of(set![EMPTY_CONTEXT]),
{
    let fault = |e: swc_ecmascript::parser::error::Error| SyntaxFault {
        lo: e.span().lo.0,
        hi: e.span().hi.0,
        message: e.kind().msg().into_owned(),
    };
    let syntax = Syntax::Typescript(Default::default());
    let comments = SingleThreadedComments::default();
    let mut recovered = Vec::new();
    let outcome = parse_file_as_module(&unit.file, syntax, target, Some(&comments), &mut recovered);
    let recovered = recovered.into_iter().map(fault).collect();
    Parsed { outcome: outcome.map(Program::Module).map_err(fault), recovered, comments }
}

/// Parses the unit's text as a module.
pub(crate) fn parse(unit: &SourceUnit, options: &ParserOptions) -> (parsed: Parsed)
    ensures
        parsed == parse_result(*unit, *options),
        parsed.outcome matches Ok(program) ==> contexts_of(program).subset_of(set![EMPTY_CONTEXT]),
{
    let target = toolchain_version(options.target);
    parse_module(unit, options, target)
}

/// The diagnostic that a syntax error is reported as: an error, with the
/// parser's message, at the offsets nearest to where the parser places it.
pub open spec fn described(fault: SyntaxFault, unit: SourceUnit) -> DiagnosticView {
    let start = unit.nearest_offset_spec(fault.lo);
    let end = unit.nearest_offset_spec(fault.hi);
    DiagnosticView {
        severity: Severity::Error,
        message: fault.message@,
        start,
        end: if end < start {
            start
        } else {
            end
        },
    }
}

/// Reports a syntax error as a diagnostic.
pub(crate) fn describe(fault: &SyntaxFault, unit: &SourceUnit) -> (diagnostic: Diagnostic)
    requires
        unit.well_formed(),
    ensures
        diagnostic@ == described(*fault, *unit),
        diagnostic.start <= diagnostic.end <= unit.len_spec(),
{
    let start = unit.nearest_offset(fault.lo);
    let end = unit.nearest_offset(fault.hi);
    Diagnostic {
        severity: Severity::Error,
        message: fault.message.clone(),
        start,
        end: if end < start {
            start
        } else {
            end
        },
    }
}

/// The diagnostics that a list of syntax errors is reported as, in order.
pub open spec fn described_all(faults: Seq<SyntaxFault>, unit: SourceUnit) -> Seq<DiagnosticView> {
    Seq::new(faults.len(), |i: int| described(faults[i], unit))
}

/// The diagnostics of a parse: the errors that the parser got over, in order,
/// then the one that stopped it, if one did.
pub open spec fn reported(parsed: Parsed, unit: SourceUnit) -> Seq<DiagnosticView> {
    let recovered = described_all(parsed.recovered@, unit);
    match parsed.outcome {
        Ok(_) => recovered,
        Err(fatal) => recovered.push(described(fatal, unit)),
    }
}

/// Collects the diagnostics of a parse.
pub(crate) fn report(parsed: &Parsed, unit: &SourceUnit) -> (diagnostics: Vec<Diagnostic>)
    requires
        unit.well_formed(),
    ensures
        diagnostic_views(diagnostics@) == reported(*parsed, *unit),
        forall|i: int|
            0 <= i < diagnostics.len() ==> (#[trigger] diagnostics[i]).start <= diagnostics[i].end
                <= unit.len_spec(),
{
    let mut diagnostics: Vec<Diagnostic> = Vec::new();
    let ghost recovered = described_all(parsed.recovered@, *unit);
    let mut i: usize = 0;
    assert(diagnostic_views(diagnostics@) =~= recovered.take(0));
    while i < parsed.recovered.len()
        invariant
            i <= parsed.recovered.len(),
            unit.well_formed(),
            recovered == described_all(parsed.recovered@, *unit),
            diagnostic_views(diagnostics@) == recovered.take(i as int),
            forall|j: int|
                0 <= j < diagnostics.len() ==> (#[trigger] diagnostics[j]).start
                    <= diagnostics[j].end <= unit.len_spec(),
        decreases parsed.recovered.len() - i,
    {
        let ghost before = diagnostic_views(diagnostics@);
        let diagnostic = describe(&parsed.recovered[i], unit);
        diagnostics.push(diagnostic);
        assert(diagnostic_views(diagnostics@) =~= before.push(diagnostic@));
        assert(before.push(diagnostic@) =~= recovered.take(i + 1));
        i += 1;
    }
    assert(recovered.take(i as int) =~= recovered);
    match &parsed.outcome {
        Ok(_) => {},
        Err(fatal) => {
            let ghost before = diagnostic_views(diagnostics@);
            let diagnostic = describe(fatal, unit);
            diagnostics.push(diagnostic);
            assert(diagnostic_views(diagnostics@) =~= before.push(diagnostic@));
        },
    }
    diagnostics
}

} // verus!
