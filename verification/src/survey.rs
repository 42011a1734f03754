//! A survey of the syntax tree for the two forms that the parser lets through
//! and the erasure pass cannot take: a parameter property declared with a
//! binding pattern, and a module declared under a quoted name without
//! `declare`. TypeScript refuses both; so does a request.

use crate::diagnostics::{Diagnostic, DiagnosticView, Severity};
use crate::source::SourceUnit;
use swc_ecmascript::ast::{Pat, Program, TsModuleDecl, TsModuleName, TsParamProp, TsParamPropParam};
use swc_ecmascript::visit::{Visit, VisitWith};
use vstd::prelude::*;

verus! {

/// A constructor parameter that declares a property.
#[verifier::external_type_specification]
#[verifier::external_body]
pub struct ExTsParamProp(swc_ecmascript::ast::TsParamProp);

/// A module or namespace declaration.
#[verifier::external_type_specification]
#[verifier::external_body]
pub struct ExTsModuleDecl(swc_ecmascript::ast::TsModuleDecl);

/// One parameter property of the tree: where it stands, and whether what it
/// declares is a plain identifier, with or without a default value.
pub struct ParameterProperty {
    pub lo: u32,
    pub hi: u32,
    pub identifier: bool,
}

/// One module declaration of the tree: where it stands, whether it is declared
/// with `declare`, and whether its name is a string literal.
pub struct ModuleDeclaration {
    pub lo: u32,
    pub hi: u32,
    pub declared: bool,
    pub quoted: bool,
}

/// The parameter properties and the module declarations of a tree, each list in
/// the order in which a walk of the tree meets them.
pub struct Survey {
    pub properties: Vec<ParameterProperty>,
    pub modules: Vec<ModuleDeclaration>,
}

impl Visit for Survey {
    /// Called by the walk for every parameter property: records its span and
    /// whether its pattern is an identifier, and walks on into it.
    #[verifier::external_body]
    fn visit_ts_param_prop(&mut self, node: &TsParamProp) {
        let identifier = match &node.param {
            TsParamPropParam::Ident(_) => true,
            TsParamPropParam::Assign(assign) => matches!(*assign.left, Pat::Ident(_)),
        };
        self.properties.push(
            ParameterProperty { lo: node.span.lo.0, hi: node.span.hi.0, identifier },
        );
        node.visit_children_with(self);
    }

    /// Called by the walk for every module declaration: records its span, its
    /// `declare` flag and whether its name is quoted, and walks on into it.
    #[verifier::external_body]
    fn visit_ts_module_decl(&mut self, node: &TsModuleDecl) {
        let quoted = matches!(node.id, TsModuleName::Str(_));
        self.modules.push(
            ModuleDeclaration {
                lo: node.span.lo.0,
                hi: node.span.hi.0,
                declared: node.declare,
                quoted,
            },
        );
        node.visit_children_with(self);
    }
}

/// The survey of a tree.
pub uninterp spec fn surveyed(program: Program) -> Survey;

/// `VisitWith::visit_with` over the tree, with the two methods above as its
/// visitor: every parameter property and every module declaration of the tree
/// is recorded, wherever it stands. What comes back depends on the tree alone.
#[verifier::external_body]
pub(crate) fn survey(program: &Program) -> (found: Survey)
    ensures
        found == surveyed(*program),
{
    let mut found = Survey { properties: Vec::new(), modules: Vec::new() };
    program.visit_with(&mut found);
    found
}

impl ParameterProperty {
    /// Whether the erasure pass can take this parameter property.
    pub open spec fn admissible(self) -> bool {
        self.identifier
    }
}

impl ModuleDeclaration {
    /// Whether the erasure pass can take this module declaration: a quoted
    /// name is for declarations with `declare` only.
    pub open spec fn admissible(self) -> bool {
        self.declared || !self.quoted
    }
}

impl Survey {
    /// Whether the erasure pass can take the tree that was surveyed.
    pub open spec fn admissible(self) -> bool {
        &&& forall|i: int|
            0 <= i < self.properties.len() ==> (#[trigger] self.properties[i]).admissible()
        &&& forall|i: int| 0 <= i < self.modules.len() ==> (#[trigger] self.modules[i]).admissible()
    }
}

/// The message for a parameter property declared with a binding pattern.
pub open spec fn pattern_property_message() -> Seq<char> {
    "a parameter property may not be declared using a binding pattern"@
}

/// The message for a module under a quoted name without `declare`.
pub open spec fn quoted_module_message() -> Seq<char> {
    "only ambient modules can use quoted names"@
}

/// The diagnostic for a form that is refused: an error with the given message,
/// at the offsets nearest to where the form stands.
pub open spec fn refusal(lo: u32, hi: u32, message: Seq<char>, unit: SourceUnit) -> DiagnosticView {
    let start = unit.nearest_offset_spec(lo);
    let end = unit.nearest_offset_spec(hi);
    DiagnosticView {
        severity: Severity::Error,
        message,
        start,
        end: if end < start {
            start
        } else {
            end
        },
    }
}

/// The diagnostics for the parameter properties that are refused, in order.
pub open spec fn property_refusals(
    properties: Seq<ParameterProperty>,
    unit: SourceUnit,
) -> Seq<DiagnosticView>
    decreases properties.len(),
{
    if properties.len() == 0 {
        seq![]
    } else {
        let earlier = property_refusals(properties.drop_last(), unit);
        let last = properties.last();
        if last.admissible() {
            earlier
        } else {
            earlier.push(refusal(last.lo, last.hi, pattern_property_message(), unit))
        }
    }
}

/// The diagnostics for the module declarations that are refused, in order.
pub open spec fn module_refusals(modules: Seq<ModuleDeclaration>, unit: SourceUnit) -> Seq<
    DiagnosticView,
>
    decreases modules.len(),
{
    if modules.len() == 0 {
        seq![]
    } else {
        let earlier = module_refusals(modules.drop_last(), unit);
        let last = modules.last();
        if last.admissible() {
            earlier
        } else {
            earlier.push(refusal(last.lo, last.hi, quoted_module_message(), unit))
        }
    }
}

/// The diagnostics for everything in a survey that is refused: the parameter
/// properties first, then the module declarations.
pub open spec fn refusals(found: Survey, unit: SourceUnit) -> Seq<DiagnosticView> {
    property_refusals(found.properties@, unit) + module_refusals(found.modules@, unit)
}

/// Every refusal is an error, and there is none exactly where the survey is
/// admissible.
pub proof fn lemma_refusals(found: Survey, unit: SourceUnit)
    ensures
        refusals(found, unit).len() == 0 <==> found.admissible(),
        forall|i: int|
            0 <= i < refusals(found, unit).len() ==> (#[trigger] refusals(found, unit)[i]).severity
                == Severity::Error,
{
    lemma_property_refusals(found.properties@, unit);
    lemma_module_refusals(found.modules@, unit);
}

proof fn lemma_property_refusals(properties: Seq<ParameterProperty>, unit: SourceUnit)
    ensures
        property_refusals(properties, unit).len() == 0 <==> forall|i: int|
            0 <= i < properties.len() ==> (#[trigger] properties[i]).admissible(),
        forall|i: int|
            0 <= i < property_refusals(properties, unit).len() ==> (#[trigger] property_refusals(
                properties,
                unit,
            )[i]).severity == Severity::Error,
    decreases properties.len(),
{
    if properties.len() > 0 {
        let earlier = properties.drop_last();
        lemma_property_refusals(earlier, unit);
        assert(forall|i: int| 0 <= i < earlier.len() ==> earlier[i] == properties[i]);
        if property_refusals(properties, unit).len() == 0 {
            assert(properties.last().admissible());
            assert forall|i: int| 0 <= i < properties.len() implies (
            #[trigger] properties[i]).admissible() by {
                if i < earlier.len() {
                    assert(earlier[i].admissible());
                }
            }
        }
    }
}

proof fn lemma_module_refusals(modules: Seq<ModuleDeclaration>, unit: SourceUnit)
    ensures
        module_refusals(modules, unit).len() == 0 <==> forall|i: int|
            0 <= i < modules.len() ==> (#[trigger] modules[i]).admissible(),
        forall|i: int|
            0 <= i < module_refusals(modules, unit).len() ==> (#[trigger] module_refusals(
                modules,
                unit,
            )[i]).severity == Severity::Error,
    decreases modules.len(),
{
    if modules.len() > 0 {
        let earlier = modules.drop_last();
        lemma_module_refusals(earlier, unit);
        assert(forall|i: int| 0 <= i < earlier.len() ==> earlier[i] == modules[i]);
        if module_refusals(modules, unit).len() == 0 {
            assert(modules.last().admissible());
            assert forall|i: int| 0 <= i < modules.len() implies (
            #[trigger] modules[i]).admissible() by {
                if i < earlier.len() {
                    assert(earlier[i].admissible());
                }
            }
        }
    }
}

/// Whether the erasure pass can take the tree that was surveyed: no parameter
/// property is declared with a binding pattern, and no module has a quoted name
/// without `declare`.
pub fn is_admissible(found: &Survey) -> (admissible: bool)
    ensures
        admissible == found.admissible(),
{
    let mut i: usize = 0;
    while i < found.properties.len()
        invariant
            i <= found.properties.len(),
            forall|j: int| 0 <= j < i ==> (#[trigger] found.properties[j]).admissible(),
        decreases found.properties.len() - i,
    {
        if !found.properties[i].identifier {
            return false;
        }
        i += 1;
    }
    let mut k: usize = 0;
    while k < found.modules.len()
        invariant
            k <= found.modules.len(),
            forall|j: int| 0 <= j < found.properties.len() ==> (
            #[trigger] found.properties[j]).admissible(),
            forall|j: int| 0 <= j < k ==> (#[trigger] found.modules[j]).admissible(),
        decreases found.modules.len() - k,
    {
        if found.modules[k].quoted && !found.modules[k].declared {
            return false;
        }
        k += 1;
    }
    true
}

/// Reports a form that is refused.
fn refuse(lo: u32, hi: u32, message: &str, unit: &SourceUnit) -> (diagnostic: Diagnostic)
    requires
        unit.well_formed(),
    ensures
        diagnostic@ == refusal(lo, hi, message@, *unit),
        diagnostic.start <= diagnostic.end <= unit.len_spec(),
{
    let start = unit.nearest_offset(lo);
    let end = unit.nearest_offset(hi);
    Diagnostic {
        severity: Severity::Error,
        message: message.to_string(),
        start,
        end: if end < start {
            start
        } else {
            end
        },
    }
}

/// Adds to `diagnostics` one error for every form of the survey that is
/// refused: the parameter properties first, then the module declarations.
pub(crate) fn report_refusals(found: &Survey, unit: &SourceUnit, diagnostics: &mut Vec<Diagnostic>)
    requires
        unit.well_formed(),
        forall|i: int|
            0 <= i < old(diagnostics).len() ==> (#[trigger] old(diagnostics)[i]).start <= old(
                diagnostics,
            )[i].end <= unit.len_spec(),
    ensures
        crate::diagnostics::diagnostic_views(final(diagnostics)@)
            == crate::diagnostics::diagnostic_views(old(diagnostics)@) + refusals(*found, *unit),
        forall|i: int|
            0 <= i < final(diagnostics).len() ==> (#[trigger] final(diagnostics)[i]).start
                <= final(diagnostics)[i].end <= unit.len_spec(),
{
    let ghost before = crate::diagnostics::diagnostic_views(diagnostics@);
    let mut i: usize = 0;
    assert(found.properties@.take(0) =~= Seq::<ParameterProperty>::empty());
    assert(before + property_refusals(found.properties@.take(0), *unit) =~= before);
    while i < found.properties.len()
        invariant
            i <= found.properties.len(),
            unit.well_formed(),
            crate::diagnostics::diagnostic_views(diagnostics@) == before + property_refusals(
                found.properties@.take(i as int),
                *unit,
            ),
            forall|j: int|
                0 <= j < diagnostics.len() ==> (#[trigger] diagnostics[j]).start
                    <= diagnostics[j].end <= unit.len_spec(),
        decreases found.properties.len() - i,
    {
        let ghost views = crate::diagnostics::diagnostic_views(diagnostics@);
        assert(found.properties@.take(i + 1).drop_last() =~= found.properties@.take(i as int));
        if !found.properties[i].identifier {
            let diagnostic = refuse(
                found.properties[i].lo,
                found.properties[i].hi,
                "a parameter property may not be declared using a binding pattern",
                unit,
            );
            diagnostics.push(diagnostic);
            assert(crate::diagnostics::diagnostic_views(diagnostics@) =~= views.push(diagnostic@));
            assert(views.push(diagnostic@) =~= before + property_refusals(
                found.properties@.take(i + 1),
                *unit,
            ));
        }
        i += 1;
    }
    assert(found.properties@.take(i as int) =~= found.properties@);
    let ghost middle = crate::diagnostics::diagnostic_views(diagnostics@);
    let mut k: usize = 0;
    assert(found.modules@.take(0) =~= Seq::<ModuleDeclaration>::empty());
    assert(middle + module_refusals(found.modules@.take(0), *unit) =~= middle);
    while k < found.modules.len()
        invariant
            k <= found.modules.len(),
            unit.well_formed(),
            middle == before + property_refusals(found.properties@, *unit),
            crate::diagnostics::diagnostic_views(diagnostics@) == middle + module_refusals(
                found.modules@.take(k as int),
                *unit,
            ),
            forall|j: int|
                0 <= j < diagnostics.len() ==> (#[trigger] diagnostics[j]).start
                    <= diagnostics[j].end <= unit.len_spec(),
        decreases found.modules.len() - k,
    {
        let ghost views = crate::diagnostics::diagnostic_views(diagnostics@);
        assert(found.modules@.take(k + 1).drop_last() =~= found.modules@.take(k as int));
        if found.modules[k].quoted && !found.modules[k].declared {
            let diagnostic = refuse(
                found.modules[k].lo,
                found.modules[k].hi,
                "only ambient modules can use quoted names",
                unit,
            );
            diagnostics.push(diagnostic);
            assert(crate::diagnostics::diagnostic_views(diagnostics@) =~= views.push(diagnostic@));
            assert(views.push(diagnostic@) =~= middle + module_refusals(
                found.modules@.take(k + 1),
                *unit,
            ));
        }
        k += 1;
    }
    assert(found.modules@.take(k as int) =~= found.modules@);
    assert(middle + module_refusals(found.modules@, *unit) =~= before + refusals(*found, *unit));
}

} // verus!
