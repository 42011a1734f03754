//! What a request reports besides its output: diagnostics and the table that
//! maps the output back to the source.

use vstd::prelude::*;

verus! {

/// How grave a diagnostic is.
#[derive(Debug, Clone, Copy, PartialEq, Eq, Structural)]
pub enum Severity {
    /// The request goes on and can still succeed.
    Warning,
    /// The request has failed, whatever else is found.
    Error,
}

/// One finding about the source text.
///
/// `start` and `end` are byte offsets into the text, a leading byte-order mark
/// not counted: `start <= end`, and `end` is at most the length of the text.
#[derive(Debug, Clone, PartialEq, Eq)]
pub struct Diagnostic {
    pub severity: Severity,
    pub message: String,
    pub start: u32,
    pub end: u32,
}

/// A diagnostic as contracts speak of it.
pub struct DiagnosticView {
    pub severity: Severity,
    pub message: Seq<char>,
    pub start: u32,
    pub end: u32,
}

impl View for Diagnostic {
    type V = DiagnosticView;

    open spec fn view(&self) -> DiagnosticView {
        DiagnosticView {
            severity: self.severity,
            message: self.message@,
            start: self.start,
            end: self.end,
        }
    }
}

/// One entry of the position-mapping table: the output at `line` and `column`,
/// both counted from zero, the column in UTF-16 units, was printed for the
/// source at byte offset `source`. `source` is `None` where the output stands
/// for nothing in the text.
#[derive(Debug, Clone, Copy, PartialEq, Eq, Structural)]
pub struct Mapping {
    pub source: Option<u32>,
    pub line: u32,
    pub column: u32,
}

/// The views of a list of diagnostics, in order.
pub open spec fn diagnostic_views(diagnostics: Seq<Diagnostic>) -> Seq<DiagnosticView> {
    diagnostics.map_values(|d: Diagnostic| d@)
}

/// Whether one of the diagnostics is an error.
pub open spec fn reached_error_spec(diagnostics: Seq<DiagnosticView>) -> bool {
    exists|i: int| 0 <= i < diagnostics.len() && (#[trigger] diagnostics[i]).severity == Severity::Error
}

/// Whether one of the diagnostics is an error: a request with such a diagnostic
/// has failed, even where a tree could still be built.
pub fn reached_error(diagnostics: &Vec<Diagnostic>) -> (found: bool)
    ensures
        found == reached_error_spec(diagnostic_views(diagnostics@)),
{
    let ghost views = diagnostic_views(diagnostics@);
    let mut i: usize = 0;
    while i < diagnostics.len()
        invariant
            i <= diagnostics.len(),
            views == diagnostic_views(diagnostics@),
            forall|j: int| 0 <= j < i ==> (#[trigger] views[j]).severity != Severity::Error,
        decreases diagnostics.len() - i,
    {
        match diagnostics[i].severity {
            Severity::Error => {
                assert(views[i as int].severity == Severity::Error);
                return true;
            },
            Severity::Warning => {},
        }
        i += 1;
    }
    false
}

} // verus!
