//! The semantic analyzer: the "exactly one valid entry point" check.
//!
//! The check scans the top-level statements once, left to right. A
//! statement is the entry point iff it is a function definition whose
//! prototype name is the reserved entry-point identifier. Outcomes are
//! communicated exclusively through the reporter; the check itself
//! always completes.

use vstd::prelude::*;

use crate::ast::{Arg, Program, Stmt, StmtKind};
use crate::ast::ExprKind;
use crate::report::{has_error, Report, Reporter};
use crate::semantic::SemanticKind;
use crate::span::Span;
use crate::strcase::{join_comma, join_with_comma};

verus! {

/// The reserved identifier a program must define to be executable.
pub open spec fn entry_point_name() -> Seq<char> {
    "main"@
}

fn is_entry_point_name(name: &String) -> (is_entry: bool)
    ensures
        is_entry == (name@ == entry_point_name()),
{
    let entry = String::from_str("main");
    name.eq(&entry)
}

/// Whether this statement is an entry-point candidate: a function
/// definition named by the entry-point identifier.
pub open spec fn stmt_is_entry(stmt: Stmt) -> bool {
    match stmt.kind {
        StmtKind::Fun(fun) => match fun.prototype.pattern.kind {
            ExprKind::Identifier(name) => name@ == entry_point_name(),
            _ => false,
        },
        _ => false,
    }
}

/// Whether any statement is an entry-point candidate.
pub open spec fn has_entry(stmts: Seq<Box<Stmt>>) -> bool {
    exists|i: int| 0 <= i < stmts.len() && stmt_is_entry(*stmts[i])
}

/// `index` points at the first entry-point statement.
pub open spec fn entry_at(stmts: Seq<Box<Stmt>>, index: int) -> bool {
    &&& 0 <= index < stmts.len()
    &&& stmt_is_entry(*stmts[index])
    &&& forall|k: int| 0 <= k < index ==> !stmt_is_entry(*stmts[k])
}

/// The parameters of the function at `index`, empty for any other
/// statement shape.
pub open spec fn entry_inputs(stmts: Seq<Box<Stmt>>, index: int) -> Seq<Box<Arg>> {
    match stmts[index].kind {
        StmtKind::Fun(fun) => fun.prototype.inputs@,
        _ => Seq::empty(),
    }
}

/// The display texts of the parameter types, in parameter order.
pub open spec fn input_ty_texts(inputs: Seq<Box<Arg>>) -> Seq<Seq<char>> {
    Seq::new(inputs.len(), |i: int| (*inputs[i].ty).text())
}

/// The comma-joined display of the parameter types.
pub open spec fn joined_input_tys(inputs: Seq<Box<Arg>>) -> Seq<char> {
    join_comma(input_ty_texts(inputs))
}

/// The merged span of all parameters: the fold of span merge over the
/// parameter spans, seeded by the first.
pub open spec fn merged_inputs_span(inputs: Seq<Box<Arg>>) -> Span
    decreases inputs.len(),
{
    if inputs.len() <= 1 {
        inputs[0].span
    } else {
        Span::merged(merged_inputs_span(inputs.drop_last()), inputs.last().span)
    }
}

/// The report emitted when no entry point exists: a zero-width span at
/// the end of the program, pointing where one should be added.
pub open spec fn main_not_found_report(program_span: Span, path: String) -> Report {
    Report::Semantic(
        SemanticKind::MainNotFound(Span { lo: program_span.hi, hi: program_span.hi }, path),
    )
}

/// `report` is the diagnostic for an entry point with parameters
/// `inputs`: their types joined for display, under their merged span.
pub open spec fn is_main_has_inputs_report(report: Report, inputs: Seq<Box<Arg>>) -> bool {
    report matches Report::Semantic(SemanticKind::MainHasInputs(tys, span)) && tys@
        == joined_input_tys(inputs) && span == merged_inputs_span(inputs)
}

/// Everything the entry-point check leaves in the reporter, as a
/// relation between the reports before (`prior`) and after (`reports`):
/// no entry point appends exactly one `MainNotFound`; an entry point
/// without parameters appends nothing; an entry point with parameters
/// appends exactly one `MainHasInputs`.
pub open spec fn check_post(
    stmts: Seq<Box<Stmt>>,
    program_span: Span,
    path: String,
    prior: Seq<Report>,
    reports: Seq<Report>,
) -> bool {
    &&& (!has_entry(stmts) ==> reports == prior.push(main_not_found_report(program_span, path)))
    &&& (forall|j: int|
        #[trigger] entry_at(stmts, j) ==> if entry_inputs(stmts, j).len() == 0 {
            reports == prior
        } else {
            &&& reports.len() == prior.len() + 1
            &&& reports.drop_last() == prior
            &&& is_main_has_inputs_report(reports.last(), entry_inputs(stmts, j))
        })
}

/// The first entry-point index is unique.
pub proof fn lemma_entry_at_unique(stmts: Seq<Box<Stmt>>, first: int, second: int)
    requires
        entry_at(stmts, first),
        entry_at(stmts, second),
    ensures
        first == second,
{
    if first < second {
        assert(!stmt_is_entry(*stmts[first]));
    }
    if second < first {
        assert(!stmt_is_entry(*stmts[second]));
    }
}

fn joined_inputs(inputs: &Vec<Box<Arg>>) -> (joined: String)
    ensures
        joined@ == joined_input_tys(inputs@),
{
    let mut texts: Vec<String> = Vec::new();
    let mut i: usize = 0;
    proof {
        assert(texts.deep_view() =~= input_ty_texts(inputs@).take(0));
    }
    while i < inputs.len()
        invariant
            0 <= i <= inputs@.len(),
            texts@.len() == i as int,
            texts.deep_view() == input_ty_texts(inputs@).take(i as int),
        decreases inputs@.len() - i,
    {
        let text = inputs[i].ty.to_text();
        texts.push(text);
        proof {
            assert(texts.deep_view() =~= input_ty_texts(inputs@).take(i + 1));
        }
        i = i + 1;
    }
    proof {
        assert(input_ty_texts(inputs@).take(inputs@.len() as int) =~= input_ty_texts(inputs@));
    }
    join_with_comma(&texts)
}

fn merged_inputs(inputs: &Vec<Box<Arg>>) -> (merged: Span)
    requires
        inputs@.len() > 0,
    ensures
        merged == merged_inputs_span(inputs@),
{
    let mut merged = inputs[0].span;
    proof {
        assert(inputs@.take(1)[0] == inputs@[0]);
        assert(merged == merged_inputs_span(inputs@.take(1)));
    }
    let mut i: usize = 1;
    while i < inputs.len()
        invariant
            1 <= i <= inputs@.len(),
            merged == merged_inputs_span(inputs@.take(i as int)),
        decreases inputs@.len() - i,
    {
        merged = Span::merge(&merged, &inputs[i].span);
        proof {
            assert(inputs@.take(i + 1).drop_last() =~= inputs@.take(i as int));
            assert(inputs@.take(i + 1).last() == inputs@[i as int]);
        }
        i = i + 1;
    }
    proof {
        assert(inputs@.take(inputs@.len() as int) =~= inputs@);
    }
    merged
}

/// Binds one program, the span of its source text and a fresh reporter
/// together for the lifetime of one analysis pass. The reporter is the
/// only channel a check may emit through.
#[derive(Debug)]
pub struct Context {
    pub program: Program,
    pub span: Span,
    pub reporter: Reporter,
}

impl Context {
    /// Construction is total: any program gets a fresh, empty reporter.
    pub fn new(program: Program, span: Span, path: String) -> (context: Context)
        ensures
            context.program == program,
            context.span == span,
            context.reporter.reports@ == Seq::<Report>::empty(),
            context.reporter.path == path,
    {
        Context { program, span, reporter: Reporter::new(path) }
    }
}

/// The entry-point check. Scans the statements once, left to right,
/// stopping at the first entry-point candidate; emits at most one
/// report, as `check_post` states; then evaluates the abort checkpoint.
pub fn check(context: &mut Context) -> (abort: bool)
    ensures
        final(context).program == old(context).program,
        final(context).span == old(context).span,
        final(context).reporter.path == old(context).reporter.path,
        check_post(
            old(context).program.stmts@,
            old(context).span,
            old(context).reporter.path,
            old(context).reporter.reports@,
            final(context).reporter.reports@,
        ),
        abort == has_error(final(context).reporter.reports@),
{
    let ghost stmts = context.program.stmts@;
    let mut i: usize = 0;
    let mut found = false;
    while i < context.program.stmts.len() && !found
        invariant
            context.program == old(context).program,
            context.span == old(context).span,
            stmts == context.program.stmts@,
            0 <= i <= stmts.len(),
            !found ==> context.reporter == old(context).reporter,
            !found ==> forall|k: int| 0 <= k < i as int ==> !stmt_is_entry(*stmts[k]),
            found ==> has_entry(stmts) && context.reporter.path == old(context).reporter.path
                && check_post(
                stmts,
                old(context).span,
                old(context).reporter.path,
                old(context).reporter.reports@,
                context.reporter.reports@,
            ),
        decreases stmts.len() - i + (if found {
            0int
        } else {
            1int
        }),
    {
        match &context.program.stmts[i].kind {
            StmtKind::Fun(fun) => {
                let is_entry = match &fun.prototype.pattern.kind {
                    ExprKind::Identifier(name) => is_entry_point_name(name),
                    _ => false,
                };
                if is_entry {
                    proof {
                        assert(stmt_is_entry(*stmts[i as int]));
                        assert(entry_at(stmts, i as int));
                    }
                    if fun.prototype.inputs.len() > 0 {
                        let inputs_text = joined_inputs(&fun.prototype.inputs);
                        let merged = merged_inputs(&fun.prototype.inputs);
                        context.reporter.add_report(
                            Report::Semantic(SemanticKind::MainHasInputs(inputs_text, merged)),
                        );
                        proof {
                            assert(context.reporter.reports@.drop_last()
                                =~= old(context).reporter.reports@);
                            assert forall|j: int| #[trigger] entry_at(stmts, j) implies j
                                == i as int by {
                                lemma_entry_at_unique(stmts, j, i as int);
                            }
                        }
                    } else {
                        proof {
                            assert forall|j: int| #[trigger] entry_at(stmts, j) implies j
                                == i as int by {
                                lemma_entry_at_unique(stmts, j, i as int);
                            }
                        }
                    }
                    found = true;
                } else {
                    i = i + 1;
                }
            },
            _ => {
                i = i + 1;
            },
        }
    }
    if !found {
        proof {
            assert(!has_entry(stmts));
        }
        let point = Span::new(context.span.hi, context.span.hi);
        let path = context.reporter.path.clone();
        context.reporter.add_report(Report::Semantic(SemanticKind::MainNotFound(point, path)));
        proof {
            assert forall|j: int| #[trigger] entry_at(stmts, j) implies false by {
                assert(stmt_is_entry(*stmts[j]));
            }
        }
    }
    context.reporter.abort_if_has_error()
}

/// The number of `MainNotFound` reports in a sequence.
pub open spec fn count_main_not_found(reports: Seq<Report>) -> nat
    decreases reports.len(),
{
    if reports.len() == 0 {
        0
    } else {
        count_main_not_found(reports.drop_last()) + (
        if reports.last() matches Report::Semantic(SemanticKind::MainNotFound(_, _)) {
            1nat
        } else {
            0nat
        })
    }
}

/// The number of `MainHasInputs` reports in a sequence.
pub open spec fn count_main_has_inputs(reports: Seq<Report>) -> nat
    decreases reports.len(),
{
    if reports.len() == 0 {
        0
    } else {
        count_main_has_inputs(reports.drop_last()) + (
        if reports.last() matches Report::Semantic(SemanticKind::MainHasInputs(_, _)) {
            1nat
        } else {
            0nat
        })
    }
}

/// For every program without an entry point, the check run on a fresh
/// reporter yields exactly one `MainNotFound` report, no `MainHasInputs`
/// report, and the abort checkpoint is set.
pub proof fn lemma_missing_entry_point(
    stmts: Seq<Box<Stmt>>,
    program_span: Span,
    path: String,
    reports: Seq<Report>,
)
    requires
        !has_entry(stmts),
        check_post(stmts, program_span, path, Seq::empty(), reports),
    ensures
        count_main_not_found(reports) == 1,
        count_main_has_inputs(reports) == 0,
        has_error(reports),
{
    assert(reports =~= Seq::empty().push(main_not_found_report(program_span, path)));
    assert(reports.drop_last() =~= Seq::<Report>::empty());
    assert(count_main_not_found(Seq::<Report>::empty()) == 0);
    assert(count_main_has_inputs(Seq::<Report>::empty()) == 0);
    assert(reports.last() == main_not_found_report(program_span, path));
    assert(crate::report::report_severity(reports[0]) == crate::semantic::Severity::Error);
}

/// For every program whose first entry point has parameters, the check
/// run on a fresh reporter yields exactly one `MainHasInputs` report,
/// whose span is the merge of all parameter spans and whose text joins
/// all parameter types; the entry point still counts as present, so
/// there is no `MainNotFound` report; and the abort checkpoint is set.
pub proof fn lemma_entry_point_with_inputs(
    stmts: Seq<Box<Stmt>>,
    program_span: Span,
    path: String,
    index: int,
    reports: Seq<Report>,
)
    requires
        entry_at(stmts, index),
        entry_inputs(stmts, index).len() > 0,
        check_post(stmts, program_span, path, Seq::empty(), reports),
    ensures
        count_main_has_inputs(reports) == 1,
        count_main_not_found(reports) == 0,
        is_main_has_inputs_report(reports.last(), entry_inputs(stmts, index)),
        has_error(reports),
{
    assert(reports.drop_last() =~= Seq::<Report>::empty());
    assert(count_main_not_found(Seq::<Report>::empty()) == 0);
    assert(count_main_has_inputs(Seq::<Report>::empty()) == 0);
    assert(is_main_has_inputs_report(reports.last(), entry_inputs(stmts, index)));
    assert(crate::report::report_severity(reports.last()) == crate::semantic::Severity::Error);
    assert(reports[reports.len() - 1] == reports.last());
}

/// For every program whose first entry point has no parameters, the
/// check emits nothing: no `MainNotFound`, no `MainHasInputs`, and the
/// abort checkpoint stays clear.
pub proof fn lemma_entry_point_without_inputs(
    stmts: Seq<Box<Stmt>>,
    program_span: Span,
    path: String,
    index: int,
    reports: Seq<Report>,
)
    requires
        entry_at(stmts, index),
        entry_inputs(stmts, index).len() == 0,
        check_post(stmts, program_span, path, Seq::empty(), reports),
    ensures
        reports == Seq::<Report>::empty(),
        count_main_not_found(reports) == 0,
        count_main_has_inputs(reports) == 0,
        !has_error(reports),
{
    assert(reports =~= Seq::<Report>::empty());
}

} // verus!
