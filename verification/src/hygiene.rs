//! The hygiene session of a request and the passes that run in it.
//!
//! A session owns the tables in which scope marks and syntax contexts are
//! allocated. Nothing in them is shared between requests: each request makes
//! its own session, allocates its marks there, and hands the session to every
//! pass in turn.

use crate::config::ParserOptions;
use crate::parser::parsed_without_error;
use crate::source::SourceUnit;
use crate::survey::{is_admissible, survey, surveyed, Survey};
use swc_core::common::comments::SingleThreadedComments;
use swc_core::common::{Globals, Mark, GLOBALS};
use swc_ecmascript::ast::Program;
use swc_ecmascript::transforms::fixer::fixer;
use swc_ecmascript::transforms::hygiene::hygiene;
use swc_ecmascript::transforms::resolver;
use swc_ecmascript::transforms::typescript::strip;
use vstd::prelude::*;

verus! {

/// The tables of a hygiene session.
#[verifier::external_type_specification]
#[verifier::external_body]
pub struct ExGlobals(swc_core::common::Globals);

/// A syntax tree: a module or a script.
#[verifier::external_type_specification]
#[verifier::external_body]
pub struct ExProgram(swc_ecmascript::ast::Program);

/// The comments of one request, each attached to a position.
#[verifier::external_type_specification]
#[verifier::external_body]
pub struct ExSingleThreadedComments(swc_core::common::comments::SingleThreadedComments);

/// The mark that no binding carries: the root of every other mark.
pub const ROOT_MARK: u32 = 0;

/// The syntax context of an identifier that no pass has touched.
pub const EMPTY_CONTEXT: u32 = 0;

/// The position that a new session gives to its first placeholder span.
pub const FIRST_PLACEHOLDER: u32 = 0xFFFE_FFFF;

/// What a hygiene session holds.
pub struct HygieneState {
    /// For each mark, in the order of allocation, its parent. The root mark
    /// comes first and is its own parent.
    pub marks: Seq<u32>,
    /// For each syntax context, in the order of allocation, the mark that made
    /// it and the context that it extends. The empty context comes first.
    pub contexts: Seq<(u32, u32)>,
    /// The position that the next placeholder span gets.
    pub next_placeholder: u32,
}

impl HygieneState {
    /// A session in which nothing has been allocated.
    pub open spec fn initial() -> HygieneState {
        HygieneState {
            marks: seq![ROOT_MARK],
            contexts: seq![(ROOT_MARK, EMPTY_CONTEXT)],
            next_placeholder: FIRST_PLACEHOLDER,
        }
    }

    /// The session after one more mark with the given parent.
    pub open spec fn with_mark(self, parent: u32) -> HygieneState {
        HygieneState { marks: self.marks.push(parent), ..self }
    }

    /// Whether `mark` has been allocated here and is not the root.
    pub open spec fn has_mark(self, mark: u32) -> bool {
        ROOT_MARK < mark < self.marks.len()
    }

    /// The syntax contexts that have been allocated here.
    pub open spec fn allocated(self) -> Set<u32> {
        Set::new(|c: u32| c < self.contexts.len())
    }

    /// Every parent is an earlier mark, every context was made by a mark of
    /// this session and extends an earlier context.
    pub open spec fn well_formed(self) -> bool {
        &&& self.marks.len() >= 1
        &&& self.marks[0] == ROOT_MARK
        &&& forall|m: int| 0 < m < self.marks.len() ==> (#[trigger] self.marks[m]) < m
        &&& self.contexts.len() >= 1
        &&& self.contexts[0] == (ROOT_MARK, EMPTY_CONTEXT)
        &&& forall|c: int|
            0 < c < self.contexts.len() ==> {
                &&& self.has_mark((#[trigger] self.contexts[c]).0)
                &&& self.contexts[c].1 < c
            }
    }

    /// Whether this session is a well-formed continuation of `earlier`: what
    /// was allocated there is still here, unchanged.
    pub open spec fn extends(self, earlier: HygieneState) -> bool {
        &&& self.well_formed()
        &&& earlier.marks.is_prefix_of(self.marks)
        &&& earlier.contexts.is_prefix_of(self.contexts)
    }
}

/// The tables that a session holds.
pub uninterp spec fn hygiene_state(globals: Globals) -> HygieneState;

/// The syntax contexts that occur in a tree.
pub uninterp spec fn contexts_of(program: Program) -> Set<u32>;

/// Whether the tree is as the parser left it: no identifier has a syntax
/// context but the empty one.
pub open spec fn unresolved(program: Program) -> bool {
    contexts_of(program).subset_of(set![EMPTY_CONTEXT])
}

/// Whether the tree is one that the parser has built for some text without
/// meeting a syntax error.
pub open spec fn free_of_errors(program: Program) -> bool {
    exists|unit: SourceUnit, options: ParserOptions|
        #[trigger] parsed_without_error(program, unit, options)
}

/// The session of a request once its two marks are allocated.
pub open spec fn marked_session() -> HygieneState {
    HygieneState::initial().with_mark(ROOT_MARK).with_mark(ROOT_MARK)
}

/// Whether the tree is what the scope resolver, with the marks of a request
/// and type syntax switched on, makes of a tree that the parser has built
/// without meeting a syntax error.
pub open spec fn resolved_free_of_errors(program: Program) -> bool {
    exists|tree: Program| #[trigger]
        free_of_errors(tree) && program == resolver_applied(
            tree,
            marked_session(),
            UNRESOLVED_MARK,
            TOP_LEVEL_MARK,
            true,
        ).0
}

/// The tree and the session that the scope resolver leaves.
pub uninterp spec fn resolver_applied(
    program: Program,
    state: HygieneState,
    unresolved_mark: u32,
    top_level_mark: u32,
    typescript: bool,
) -> (Program, HygieneState);

/// The tree and the session that the type-erasure pass leaves.
pub uninterp spec fn strip_applied(
    program: Program,
    state: HygieneState,
    unresolved_mark: u32,
    top_level_mark: u32,
) -> (Program, HygieneState);

/// The tree and the session that the renaming pass leaves.
pub uninterp spec fn hygiene_applied(program: Program, state: HygieneState) -> (
    Program,
    HygieneState,
);

/// The tree and the comments that the structural fixer leaves.
pub uninterp spec fn fixer_applied(
    program: Program,
    state: HygieneState,
    comments: SingleThreadedComments,
) -> (Program, SingleThreadedComments);

/// `Globals::new`: a session that holds the root mark, the empty context and
/// nothing else.
#[verifier::external_body]
fn new_globals() -> (globals: Globals)
    ensures
        hygiene_state(globals) == HygieneState::initial(),
{
    Globals::new()
}

/// `Mark::new`, run in the session (`GLOBALS.set`): a mark whose parent is the
/// root is appended to the session's marks, and its index there is returned.
/// Nothing else in the session changes.
#[verifier::external_body]
fn fresh_mark(globals: &mut Globals) -> (mark: u32)
    requires
        hygiene_state(*old(globals)).marks.len() < u32::MAX,
    ensures
        mark == hygiene_state(*old(globals)).marks.len(),
        hygiene_state(*final(globals)) == hygiene_state(*old(globals)).with_mark(ROOT_MARK),
{
    GLOBALS.set(globals, || Mark::new().as_u32())
}

/// `resolver`, applied to the tree (`Program::apply`) in the session
/// (`GLOBALS.set`). It refuses the root mark for either argument, and looks up
/// in the session's tables the marks it is given and the contexts it finds in
/// the tree. What it returns depends on the tree, the session and the
/// arguments alone; it only adds to the session, and every context that it
/// writes into the tree is one of the session.
#[verifier::external_body]
fn resolve(
    globals: &mut Globals,
    program: Program,
    unresolved_mark: u32,
    top_level_mark: u32,
    typescript: bool,
) -> (resolved: Program)
    requires
        hygiene_state(*old(globals)).well_formed(),
        hygiene_state(*old(globals)).has_mark(unresolved_mark),
        hygiene_state(*old(globals)).has_mark(top_level_mark),
        contexts_of(program).subset_of(hygiene_state(*old(globals)).allocated()),
    ensures
        (resolved, hygiene_state(*final(globals))) == resolver_applied(
            program,
            hygiene_state(*old(globals)),
            unresolved_mark,
            top_level_mark,
            typescript,
        ),
        hygiene_state(*final(globals)).extends(hygiene_state(*old(globals))),
        contexts_of(resolved).subset_of(hygiene_state(*final(globals)).allocated()),
{
    let unresolved_mark = Mark::from_u32(unresolved_mark);
    let top_level_mark = Mark::from_u32(top_level_mark);
    GLOBALS.set(globals, || program.apply(resolver(unresolved_mark, top_level_mark, typescript)))
}

/// `strip`, applied to the tree (`Program::apply`) in the session
/// (`GLOBALS.set`). It expects two different marks, neither of them the root,
/// and a tree in which every assignment target and every pattern is one: the
/// resolved tree of a parse that met no syntax error. It stops on a parameter
/// property whose pattern is no identifier, and on a module with a quoted name
/// and no `declare`: a tree with either is left out.
/// What it returns depends on the tree, the session and the marks alone; it
/// only adds to the session, and every context in the tree it returns is one of
/// the session.
#[verifier::external_body]
fn strip_types(
    globals: &mut Globals,
    program: Program,
    unresolved_mark: u32,
    top_level_mark: u32,
) -> (stripped: Program)
    requires
        hygiene_state(*old(globals)).well_formed(),
        hygiene_state(*old(globals)).has_mark(unresolved_mark),
        hygiene_state(*old(globals)).has_mark(top_level_mark),
        unresolved_mark != top_level_mark,
        contexts_of(program).subset_of(hygiene_state(*old(globals)).allocated()),
        resolved_free_of_errors(program),
        surveyed(program).admissible(),
    ensures
        (stripped, hygiene_state(*final(globals))) == strip_applied(
            program,
            hygiene_state(*old(globals)),
            unresolved_mark,
            top_level_mark,
        ),
        hygiene_state(*final(globals)).extends(hygiene_state(*old(globals))),
        contexts_of(stripped).subset_of(hygiene_state(*final(globals)).allocated()),
{
    let unresolved_mark = Mark::from_u32(unresolved_mark);
    let top_level_mark = Mark::from_u32(top_level_mark);
    GLOBALS.set(globals, || program.apply(strip(unresolved_mark, top_level_mark)))
}

/// `hygiene`, applied to the tree (`Program::apply`) in the session
/// (`GLOBALS.set`). What it returns depends on the tree and the session alone;
/// it only adds to the session, and every context in the tree it returns is one
/// of the session.
#[verifier::external_body]
fn rename_collisions(globals: &mut Globals, program: Program) -> (renamed: Program)
    requires
        hygiene_state(*old(globals)).well_formed(),
        contexts_of(program).subset_of(hygiene_state(*old(globals)).allocated()),
    ensures
        (renamed, hygiene_state(*final(globals))) == hygiene_applied(
            program,
            hygiene_state(*old(globals)),
        ),
        hygiene_state(*final(globals)).extends(hygiene_state(*old(globals))),
        contexts_of(renamed).subset_of(hygiene_state(*final(globals)).allocated()),
{
    GLOBALS.set(globals, || program.apply(hygiene()))
}

/// `fixer` with the request's comments, applied to the tree (`Program::apply`)
/// in the session (`GLOBALS.set`), which ends with it. What it returns depends
/// on the tree, the session and the comments alone.
#[verifier::external_body]
fn fix_structure(globals: Globals, program: Program, comments: SingleThreadedComments) -> (fixed: (
    Program,
    SingleThreadedComments,
))
    requires
        hygiene_state(globals).well_formed(),
        contexts_of(program).subset_of(hygiene_state(globals).allocated()),
    ensures
        fixed == fixer_applied(program, hygiene_state(globals), comments),
{
    let program = GLOBALS.set(&globals, || program.apply(fixer(Some(&comments))));
    (program, comments)
}

/// The first mark that a new session allocates: the one given to references
/// that resolve to no binding of the module.
pub const UNRESOLVED_MARK: u32 = 1;

/// The second mark that a new session allocates: the one given to the
/// bindings of the module's top level.
pub const TOP_LEVEL_MARK: u32 = 2;

/// What the passes make of a parsed tree and its comments, in a session of
/// their own. The scope resolver comes first, with two fresh marks and type
/// syntax switched on. Where the resolved tree holds a form that the erasure
/// pass cannot take, the passes end there with the survey of the tree.
/// Otherwise type erasure follows with the same marks, then renaming, then the
/// structural fixer.
pub open spec fn passes_applied(program: Program, comments: SingleThreadedComments) -> Result<
    (Program, SingleThreadedComments),
    Survey,
> {
    let resolved = resolver_applied(
        program,
        marked_session(),
        UNRESOLVED_MARK,
        TOP_LEVEL_MARK,
        true,
    );
    let found = surveyed(resolved.0);
    if found.admissible() {
        let stripped = strip_applied(resolved.0, resolved.1, UNRESOLVED_MARK, TOP_LEVEL_MARK);
        let renamed = hygiene_applied(stripped.0, stripped.1);
        Ok(fixer_applied(renamed.0, renamed.1, comments))
    } else {
        Err(found)
    }
}

/// Runs the passes over a tree that was parsed without an error, in a new
/// session. The tree is surveyed after the scope resolver, and type erasure
/// runs only on a tree that it can take; any other tree comes back as its
/// survey.
pub(crate) fn apply_passes(program: Program, comments: SingleThreadedComments) -> (done: Result<
    (Program, SingleThreadedComments),
    Survey,
>)
    requires
        unresolved(program),
        free_of_errors(program),
    ensures
        done == passes_applied(program, comments),
{
    let ghost parsed = program;
    let mut globals = new_globals();
    let unresolved_mark = fresh_mark(&mut globals);
    let top_level_mark = fresh_mark(&mut globals);
    assert(hygiene_state(globals) == marked_session());
    assert(hygiene_state(globals).well_formed());

    let program = resolve(&mut globals, program, unresolved_mark, top_level_mark, true);
    assert(free_of_errors(parsed) && program == resolver_applied(
        parsed,
        marked_session(),
        UNRESOLVED_MARK,
        TOP_LEVEL_MARK,
        true,
    ).0);
    let found = survey(&program);
    if !is_admissible(&found) {
        return Err(found);
    }
    let program = strip_types(&mut globals, program, unresolved_mark, top_level_mark);
    let program = rename_collisions(&mut globals, program);
    Ok(fix_structure(globals, program, comments))
}

} // verus!
