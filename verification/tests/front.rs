use zhoo_front::analyzer::{check, Context};
use zhoo_front::ast::{
    Arg, Async, BinOpKind, Block, Expr, ExprKind, Fun, Pattern, PatternKind, Program, Prototype,
    Public, ReturnTy, Stmt, StmtKind, Ty, Unsafe, Wasm,
};
use zhoo_front::builtins::{has_unique_names, lookup_builtin, resolve_call, sys_builtins, Builtin, Proto};
use zhoo_front::report::Report;
use zhoo_front::semantic::{write_semantic_report, SemanticKind, Severity};
use zhoo_front::span::Span;
use zhoo_front::strcase::{join_with_comma, to_plural_or_singular, usize_to_string};

fn identifier(name: &str, lo: u32, hi: u32) -> Box<Expr> {
    Box::new(Expr::new(
        ExprKind::Identifier(name.to_string()),
        Span::new(lo, hi),
    ))
}

fn param(name: &str, ty: Ty, lo: u32, hi: u32) -> Box<Arg> {
    let pattern = Pattern::new(
        PatternKind::Identifier(identifier(name, lo, hi)),
        Span::new(lo, hi),
    );
    Box::new(Arg::new(pattern, Box::new(ty), Span::new(lo, hi)))
}

fn fun_stmt(name: &str, inputs: Vec<Box<Arg>>, lo: u32, hi: u32) -> Box<Stmt> {
    let prototype = Prototype::new(
        identifier(name, lo, lo + 3),
        inputs,
        ReturnTy::Default(Span::new(hi, hi)),
        Span::new(lo, hi),
    );
    let fun = Fun::new(
        Public::No,
        Async::No,
        Unsafe::No,
        Wasm::No,
        prototype,
        Box::new(Block::new(Vec::new(), Span::new(hi, hi))),
        Span::new(lo, hi),
    );
    Box::new(Stmt::new(StmtKind::Fun(Box::new(fun)), Span::new(lo, hi)))
}

#[test]
fn merge_covers_both_spans() {
    let a = Span::new(4, 9);
    let b = Span::new(7, 15);
    let merged = Span::merge(&a, &b);
    assert_eq!(merged.lo, 4);
    assert_eq!(merged.hi, 15);
}

#[test]
fn merge_is_commutative_on_values() {
    let a = Span::new(2, 5);
    let b = Span::new(10, 12);
    assert_eq!(Span::merge(&a, &b), Span::merge(&b, &a));
}

#[test]
fn merge_is_associative_on_values() {
    let a = Span::new(3, 8);
    let b = Span::new(1, 4);
    let c = Span::new(6, 20);
    let left = Span::merge(&Span::merge(&a, &b), &c);
    let right = Span::merge(&a, &Span::merge(&b, &c));
    assert_eq!(left, right);
}

#[test]
fn merge_with_itself_changes_nothing() {
    let a = Span::new(5, 11);
    assert_eq!(Span::merge(&a, &a), a);
}

#[test]
fn one_argument_is_singular() {
    assert_eq!(to_plural_or_singular(1, "argument"), "argument");
}

#[test]
fn zero_or_many_arguments_are_plural() {
    assert_eq!(to_plural_or_singular(0, "argument"), "arguments");
    assert_eq!(to_plural_or_singular(2, "argument"), "arguments");
    assert_eq!(to_plural_or_singular(7, "argument"), "arguments");
}

#[test]
fn counts_render_in_decimal() {
    assert_eq!(usize_to_string(0), "0");
    assert_eq!(usize_to_string(9), "9");
    assert_eq!(usize_to_string(42), "42");
    assert_eq!(usize_to_string(100), "100");
}

#[test]
fn joining_types_uses_comma_and_space() {
    assert_eq!(join_with_comma(&Vec::new()), "");
    assert_eq!(join_with_comma(&vec!["int".to_string()]), "int");
    assert_eq!(
        join_with_comma(&vec!["int".to_string(), "str".to_string()]),
        "int, str"
    );
}

#[test]
fn type_names_display() {
    assert_eq!(Ty::Int.to_text(), "int");
    assert_eq!(Ty::Real.to_text(), "real");
    assert_eq!(Ty::Bool.to_text(), "bool");
    assert_eq!(Ty::Str.to_text(), "str");
    assert_eq!(Ty::Void.to_text(), "void");
}

#[test]
fn program_without_main_reports_main_not_found() {
    let inputs = vec![param("a", Ty::Int, 8, 14)];
    let program = Program::new(vec![fun_stmt("add", inputs, 0, 18)]);
    let mut context = Context::new(program, Span::new(0, 18), "main.zo".to_string());
    let abort = check(&mut context);
    assert!(abort);
    assert!(context.reporter.abort_if_has_error());
    assert_eq!(context.reporter.reports.len(), 1);
    match &context.reporter.reports[0] {
        Report::Semantic(SemanticKind::MainNotFound(span, path)) => {
            assert_eq!(span.lo, 18);
            assert_eq!(span.hi, 18);
            assert_eq!(path, "main.zo");
        }
        other => panic!("expected MainNotFound, got {:?}", other),
    }
}

#[test]
fn main_with_parameters_reports_merged_span_and_types() {
    let inputs = vec![param("a", Ty::Int, 9, 15), param("b", Ty::Int, 17, 23)];
    let program = Program::new(vec![fun_stmt("main", inputs, 0, 27)]);
    let mut context = Context::new(program, Span::new(0, 27), "main.zo".to_string());
    let abort = check(&mut context);
    assert!(abort);
    assert_eq!(context.reporter.reports.len(), 1);
    match &context.reporter.reports[0] {
        Report::Semantic(SemanticKind::MainHasInputs(types, span)) => {
            assert_eq!(types, "int, int");
            assert_eq!(span.lo, 9);
            assert_eq!(span.hi, 23);
        }
        other => panic!("expected MainHasInputs, got {:?}", other),
    }
}

#[test]
fn main_without_parameters_passes_the_check() {
    let program = Program::new(vec![fun_stmt("main", Vec::new(), 0, 13)]);
    let mut context = Context::new(program, Span::new(0, 13), "main.zo".to_string());
    let abort = check(&mut context);
    assert!(!abort);
    assert!(context.reporter.reports.is_empty());
    assert!(!context.reporter.abort_if_has_error());
}

#[test]
fn main_found_after_other_statements() {
    let program = Program::new(vec![
        fun_stmt("add", vec![param("a", Ty::Int, 8, 14)], 0, 18),
        fun_stmt("main", Vec::new(), 20, 33),
    ]);
    let mut context = Context::new(program, Span::new(0, 33), "main.zo".to_string());
    let abort = check(&mut context);
    assert!(!abort);
    assert!(context.reporter.reports.is_empty());
}

#[test]
fn builtin_table_holds_the_three_system_builtins() {
    let builtins = sys_builtins();
    assert_eq!(builtins.len(), 3);
    assert_eq!(builtins[0].name, "exit");
    assert_eq!(builtins[0].proto.0, vec![Ty::Int]);
    assert_eq!(builtins[0].proto.1, Ty::Void);
    assert_eq!(builtins[1].name, "create");
    assert_eq!(builtins[1].proto.0, vec![Ty::Str, Ty::Str]);
    assert_eq!(builtins[1].proto.1, Ty::Void);
    assert_eq!(builtins[2].name, "open");
    assert_eq!(builtins[2].proto.0, vec![Ty::Str]);
    assert_eq!(builtins[2].proto.1, Ty::Str);
}

#[test]
fn builtin_lookup_finds_exit_signature() {
    let builtins = sys_builtins();
    let index = lookup_builtin(&builtins, &"exit".to_string()).expect("exit is registered");
    assert_eq!(index, 0);
    assert_eq!(builtins[index].proto.0, vec![Ty::Int]);
    assert_eq!(builtins[index].proto.1, Ty::Void);
    assert!(lookup_builtin(&builtins, &"mystery".to_string()).is_none());
}

#[test]
fn unknown_name_and_wrong_arity_fail_distinctly() {
    let builtins = sys_builtins();
    let span = Span::new(30, 42);

    let unknown = resolve_call(&builtins, &"mystery".to_string(), span, 1);
    match unknown {
        Some(SemanticKind::FunctionNotFound(failure_span, name)) => {
            assert_eq!(failure_span, span);
            assert_eq!(name, "mystery");
        }
        other => panic!("expected FunctionNotFound, got {:?}", other),
    }

    let wrong_arity = resolve_call(&builtins, &"exit".to_string(), span, 2);
    match wrong_arity {
        Some(SemanticKind::ArgumentsMismatch(failure_span, inputs, expected, actual, should_be)) => {
            assert_eq!(failure_span, span);
            assert_eq!(inputs, "int");
            assert_eq!(expected, 1);
            assert_eq!(actual, 2);
            assert_eq!(should_be, "exit(int)");
        }
        other => panic!("expected ArgumentsMismatch, got {:?}", other),
    }

    assert!(resolve_call(&builtins, &"exit".to_string(), span, 1).is_none());
}

#[test]
fn duplicate_builtin_names_are_detected() {
    let mut builtins = sys_builtins();
    assert!(has_unique_names(&builtins));
    builtins.push(Builtin::new(
        "exit".to_string(),
        Proto(vec![Ty::Str], Ty::Void),
    ));
    assert!(!has_unique_names(&builtins));
}

#[test]
fn prototype_projects_its_input_types() {
    let inputs = vec![param("a", Ty::Int, 4, 10), param("b", Ty::Str, 12, 18)];
    let prototype = Prototype::new(
        identifier("create", 0, 6),
        inputs,
        ReturnTy::Default(Span::new(20, 20)),
        Span::new(0, 20),
    );
    let tys = prototype.as_inputs_tys();
    assert_eq!(tys.len(), 2);
    assert_eq!(*tys[0], Ty::Int);
    assert_eq!(*tys[1], Ty::Str);
}

#[test]
fn compound_assignment_accepts_arithmetic_and_bitwise() {
    assert!(BinOpKind::Add.is_assign_op());
    assert!(BinOpKind::Sub.is_assign_op());
    assert!(BinOpKind::Mul.is_assign_op());
    assert!(BinOpKind::Div.is_assign_op());
    assert!(BinOpKind::Rem.is_assign_op());
    assert!(BinOpKind::Shl.is_assign_op());
    assert!(BinOpKind::Shr.is_assign_op());
    assert!(BinOpKind::BitAnd.is_assign_op());
    assert!(BinOpKind::BitOr.is_assign_op());
    assert!(BinOpKind::BitXor.is_assign_op());
    assert!(!BinOpKind::And.is_assign_op());
    assert!(!BinOpKind::Or.is_assign_op());
    assert!(!BinOpKind::Lt.is_assign_op());
    assert!(!BinOpKind::Eq.is_assign_op());
    assert!(!BinOpKind::As.is_assign_op());
    assert!(!BinOpKind::Range.is_assign_op());
}

#[test]
fn arguments_mismatch_renders_counts_and_suggestion() {
    let kind = SemanticKind::ArgumentsMismatch(
        Span::new(10, 20),
        "str, str".to_string(),
        2,
        1,
        "create(str, str)".to_string(),
    );
    let message = write_semantic_report(&kind);
    assert_eq!(message.severity, Severity::Error);
    assert_eq!(message.title, "arguments mismatch");
    assert_eq!(message.labels.len(), 1);
    assert_eq!(message.labels[0].span, Span::new(10, 20));
    assert_eq!(
        message.labels[0].message,
        "the input arguments of type (str, str) are required"
    );
    assert_eq!(
        message.notes,
        vec!["this function takes 2 arguments but 1 argument were supplied".to_string()]
    );
    assert_eq!(message.helps, vec!["try this: create(str, str)".to_string()]);
}

#[test]
fn singular_argument_count_renders_singular() {
    let kind = SemanticKind::ArgumentsMismatch(
        Span::new(0, 4),
        "int".to_string(),
        1,
        0,
        "exit(int)".to_string(),
    );
    let message = write_semantic_report(&kind);
    assert_eq!(
        message.labels[0].message,
        "the input argument of type (int) are required"
    );
    assert_eq!(
        message.notes,
        vec!["this function takes 1 argument but 0 arguments were supplied".to_string()]
    );
}

#[test]
fn function_not_found_renders_name_in_title() {
    let kind = SemanticKind::FunctionNotFound(Span::new(3, 9), "launch".to_string());
    let message = write_semantic_report(&kind);
    assert_eq!(message.severity, Severity::Error);
    assert_eq!(message.title, "function `launch` not found");
    assert_eq!(
        message.labels[0].message,
        "this call requires a function that does not exist in this scope"
    );
    assert!(message.notes.is_empty());
    assert!(message.helps.is_empty());
}

#[test]
fn identifier_not_found_renders_name_in_title() {
    let kind = SemanticKind::IdentifierNotFound(Span::new(5, 8), "total".to_string());
    let message = write_semantic_report(&kind);
    assert_eq!(message.title, "identifier `total` not found");
    assert_eq!(
        message.labels[0].message,
        "this identifier does not exist in this scope"
    );
}

#[test]
fn main_not_found_renders_path_and_fix() {
    let kind = SemanticKind::MainNotFound(Span::new(18, 18), "main.zo".to_string());
    let message = write_semantic_report(&kind);
    assert_eq!(message.severity, Severity::Error);
    assert_eq!(message.title, "`main` function not found");
    assert_eq!(message.labels[0].span, Span::new(18, 18));
    assert_eq!(message.labels[0].message, "add a `main` function to main.zo");
    assert!(message.notes.is_empty());
    assert_eq!(message.helps, vec!["add `fun main() {}`".to_string()]);
}

#[test]
fn main_has_inputs_renders_expected_and_actual_forms() {
    let kind = SemanticKind::MainHasInputs("int, int".to_string(), Span::new(9, 23));
    let message = write_semantic_report(&kind);
    assert_eq!(message.severity, Severity::Error);
    assert_eq!(message.title, "`main` function defined with arguments");
    assert_eq!(
        message.labels[0].message,
        "no arguments should be given to the main function"
    );
    assert_eq!(
        message.helps,
        vec!["expected `fun()` actual `fun(int, int)`".to_string()]
    );
}

#[test]
fn name_clash_renders_as_error() {
    let kind = SemanticKind::NameClash(Span::new(2, 7), "count".to_string());
    let message = write_semantic_report(&kind);
    assert_eq!(message.severity, Severity::Error);
    assert_eq!(message.title, "variable `count` already exists");
    assert_eq!(
        message.labels[0].message,
        "this name is already declared in the scope"
    );
}

#[test]
fn naming_convention_is_a_warning() {
    let kind = SemanticKind::NamingConvention(
        "myVar".to_string(),
        "snake case".to_string(),
        Span::new(12, 17),
    );
    let message = write_semantic_report(&kind);
    assert_eq!(message.severity, Severity::Warning);
    assert_eq!(message.title, "variable `myVar` should have a `snake case`");
    assert_eq!(
        message.labels[0].message,
        "change this identifier to `snake case` convention: `myVar`"
    );
}

#[test]
fn out_of_loop_renders_behavior() {
    let kind = SemanticKind::OutOfLoop(Span::new(40, 45), "break".to_string());
    let message = write_semantic_report(&kind);
    assert_eq!(message.title, "`break` outside of the loop");
    assert_eq!(message.labels[0].message, "cannot `break` out of the loop");
}

#[test]
fn type_mismatch_renders_both_types() {
    let kind = SemanticKind::TypeMismatch(Span::new(6, 12), "int".to_string(), "str".to_string());
    let message = write_semantic_report(&kind);
    assert_eq!(message.title, "type mismatch");
    assert_eq!(message.labels[0].message, "expected `int`, found `str`");
}

#[test]
fn rendering_twice_yields_identical_text() {
    let kinds = vec![
        SemanticKind::ArgumentsMismatch(
            Span::new(1, 5),
            "int".to_string(),
            1,
            3,
            "exit(int)".to_string(),
        ),
        SemanticKind::FunctionNotFound(Span::new(2, 6), "launch".to_string()),
        SemanticKind::MainNotFound(Span::new(7, 7), "main.zo".to_string()),
        SemanticKind::MainHasInputs("int".to_string(), Span::new(3, 9)),
        SemanticKind::NamingConvention("myVar".to_string(), "snake case".to_string(), Span::new(0, 5)),
    ];
    for kind in kinds {
        let first = write_semantic_report(&kind);
        let second = write_semantic_report(&kind);
        assert_eq!(first.severity, second.severity);
        assert_eq!(first.title, second.title);
        assert_eq!(first.labels.len(), second.labels.len());
        assert_eq!(first.labels[0].span, second.labels[0].span);
        assert_eq!(first.labels[0].message, second.labels[0].message);
        assert_eq!(first.notes, second.notes);
        assert_eq!(first.helps, second.helps);
    }
}

#[test]
fn warnings_never_set_the_abort_checkpoint() {
    let program = Program::new(vec![fun_stmt("main", Vec::new(), 0, 13)]);
    let mut context = Context::new(program, Span::new(0, 13), "main.zo".to_string());
    let abort = check(&mut context);
    assert!(!abort);
    context.reporter.add_report(Report::Semantic(SemanticKind::NamingConvention(
        "myVar".to_string(),
        "snake case".to_string(),
        Span::new(4, 9),
    )));
    assert!(!context.reporter.abort_if_has_error());
    context.reporter.add_report(Report::Semantic(SemanticKind::NameClash(
        Span::new(4, 9),
        "myVar".to_string(),
    )));
    assert!(context.reporter.abort_if_has_error());
}

#[test]
fn reports_keep_emission_order() {
    let mut context = Context::new(
        Program::new(Vec::new()),
        Span::new(0, 0),
        "main.zo".to_string(),
    );
    context.reporter.add_report(Report::Semantic(SemanticKind::NameClash(
        Span::new(1, 2),
        "first".to_string(),
    )));
    context.reporter.add_report(Report::Semantic(SemanticKind::NameClash(
        Span::new(3, 4),
        "second".to_string(),
    )));
    let names: Vec<String> = context
        .reporter
        .reports
        .iter()
        .map(|report| match report {
            Report::Semantic(SemanticKind::NameClash(_, name)) => name.clone(),
            other => panic!("unexpected report {:?}", other),
        })
        .collect();
    assert_eq!(names, vec!["first".to_string(), "second".to_string()]);
}
