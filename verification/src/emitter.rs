//! Emission: from the final tree to output bytes and the table that maps them
//! back to the source.

use crate::config::EmitterConfig;
use crate::diagnostics::Mapping;
use crate::parser::{toolchain_version, version_of};
use crate::source::SourceUnit;
use swc_core::common::comments::SingleThreadedComments;
use swc_ecmascript::ast::{EsVersion, Program};
use swc_ecmascript::codegen::text_writer::{omit_trailing_semi, JsWriter};
use swc_ecmascript::codegen::{Config, Emitter};
use vstd::prelude::*;

verus! {

/// What the emitter has written: the output, and for each token that stands for
/// something in the source the position of the registry it was printed for,
/// with the line and the column of the output where it stands.
pub struct Emitted {
    pub code: Vec<u8>,
    pub mappings: Vec<(u32, u32, u32)>,
}

/// The line terminator of the output.
pub open spec fn new_line_spec() -> Seq<char> {
    seq!['\n']
}

/// What emitting a tree gives: the output and its mappings, or the message of
/// the failure.
pub uninterp spec fn emit_result(
    program: Program,
    unit: SourceUnit,
    comments: SingleThreadedComments,
    config: EmitterConfig,
    new_line: Seq<char>,
) -> Result<Emitted, String>;

/// `Emitter::emit_program` with a `JsWriter` (`JsWriter::new`) that writes into
/// a buffer of its own, ends lines with `new_line` and records the mappings;
/// the target and the switches are set on the default configuration
/// (`Config::default` and its `with_` methods). This writer writes every
/// terminator at once, so it is for a configuration that keeps the last one.
/// What comes back depends on the tree, the unit, the comments and the
/// configuration alone. A failure is handed on as its message.
#[verifier::external_body]
fn emit_program(
    program: &Program,
    unit: &SourceUnit,
    comments: SingleThreadedComments,
    config: &EmitterConfig,
    target: EsVersion,
    new_line: &str,
) -> (out: Result<Emitted, String>)
    requires
        version_of(target) == config.target,
        !config.omit_last_semi,
    ensures
        out == emit_result(*program, *unit, comments, *config, new_line@),
{
    let (mut code, mut table) = (Vec::new(), Vec::new());
    let cfg = Config::default().with_target(target).with_ascii_only(config.ascii_only)
        .with_minify(config.minify).with_omit_last_semi(config.omit_last_semi);
    let cm = unit.source_map.clone();
    let wr = JsWriter::new(cm.clone(), new_line, &mut code, Some(&mut table));
    let done = Emitter { cfg, cm, comments: Some(&comments), wr }.emit_program(program);
    let mappings = table.into_iter().map(|(pos, at)| (pos.0, at.line, at.col)).collect();
    match done {
        Ok(()) => Ok(Emitted { code, mappings }),
        Err(failure) => Err(failure.to_string()),
    }
}

/// `Emitter::emit_program` as above, with the `JsWriter` inside
/// `omit_trailing_semi`: a writer that holds each terminator back until it
/// sees what follows, and drops it before a closing brace. With it the emitter
/// can leave out the terminator of the last statement, so it is for a
/// configuration that asks for that.
#[verifier::external_body]
fn emit_program_holding_terminators(
    program: &Program,
    unit: &SourceUnit,
    comments: SingleThreadedComments,
    config: &EmitterConfig,
    target: EsVersion,
    new_line: &str,
) -> (out: Result<Emitted, String>)
    requires
        version_of(target) == config.target,
        config.omit_last_semi,
    ensures
        out == emit_result(*program, *unit, comments, *config, new_line@),
{
    let (mut code, mut table) = (Vec::new(), Vec::new());
    let cfg = Config::default().with_target(target).with_ascii_only(config.ascii_only)
        .with_minify(config.minify).with_omit_last_semi(config.omit_last_semi);
    let cm = unit.source_map.clone();
    let wr = JsWriter::new(cm.clone(), new_line, &mut code, Some(&mut table));
    let wr = omit_trailing_semi(wr);
    let done = Emitter { cfg, cm, comments: Some(&comments), wr }.emit_program(program);
    let mappings = table.into_iter().map(|(pos, at)| (pos.0, at.line, at.col)).collect();
    match done {
        Ok(()) => Ok(Emitted { code, mappings }),
        Err(failure) => Err(failure.to_string()),
    }
}

/// Prints the tree with the comments that belong to it, each line ended by a
/// line feed. Where the configuration asks for the last terminator to be left
/// out, the tree is printed through the writer that can hold terminators back.
pub(crate) fn emit(
    program: &Program,
    unit: &SourceUnit,
    comments: SingleThreadedComments,
    config: &EmitterConfig,
) -> (out: Result<Emitted, String>)
    ensures
        out == emit_result(*program, *unit, comments, *config, new_line_spec()),
{
    let target = toolchain_version(config.target);
    proof {
        reveal_strlit("\n");
        assert("\n"@ =~= new_line_spec());
    }
    if config.omit_last_semi {
        emit_program_holding_terminators(program, unit, comments, config, target, "\n")
    } else {
        emit_program(program, unit, comments, config, target, "\n")
    }
}

/// The entry of the position-mapping table that a recorded mapping stands for.
pub open spec fn mapping_spec(recorded: (u32, u32, u32), unit: SourceUnit) -> Mapping {
    Mapping { source: unit.offset_spec(recorded.0), line: recorded.1, column: recorded.2 }
}

/// The position-mapping table that the recorded mappings stand for, in order.
pub open spec fn mappings_spec(recorded: Seq<(u32, u32, u32)>, unit: SourceUnit) -> Seq<Mapping> {
    Seq::new(recorded.len(), |i: int| mapping_spec(recorded[i], unit))
}

/// Turns the recorded mappings into the position-mapping table: every position
/// of the registry becomes an offset into the text, or `None` where it lies
/// outside the text.
pub(crate) fn mapping_table(recorded: &Vec<(u32, u32, u32)>, unit: &SourceUnit) -> (table: Vec<
    Mapping,
>)
    ensures
        table@ == mappings_spec(recorded@, *unit),
        forall|i: int|
            0 <= i < table.len() ==> ((#[trigger] table[i]).source matches Some(offset) ==> offset
                <= unit.len_spec()),
{
    let mut table: Vec<Mapping> = Vec::new();
    let mut i: usize = 0;
    while i < recorded.len()
        invariant
            i <= recorded.len(),
            table@ == mappings_spec(recorded@, *unit).take(i as int),
            forall|j: int|
                0 <= j < table.len() ==> ((#[trigger] table[j]).source matches Some(offset)
                    ==> offset <= unit.len_spec()),
        decreases recorded.len() - i,
    {
        let (position, line, column) = recorded[i];
        table.push(Mapping { source: unit.offset_of(position), line, column });
        assert(table@ =~= mappings_spec(recorded@, *unit).take(i + 1));
        i += 1;
    }
    assert(mappings_spec(recorded@, *unit).take(i as int) =~= mappings_spec(recorded@, *unit));
    table
}

} // verus!
