//! Semantic diagnostics: the closed set of report kinds the analyzer can
//! emit, and the renderer that maps each kind to its message parts.
//!
//! A rendered message is a tuple of severity, title, primary labels,
//! notes and suggested-fix lines; the exact content of each part is fixed
//! by the spec functions below, so rendering is a pure function of the
//! report kind.

use vstd::prelude::*;

use crate::span::Span;
use crate::strcase::{dec_chars, plural_or_singular};
use crate::strcase::{to_plural_or_singular, usize_to_string};

verus! {

/// How bad a report is: errors block compilation, warnings never do.
#[derive(Clone, Copy, Debug, PartialEq, Eq, Structural)]
pub enum Severity {
    Error,
    Warning,
}

/// One semantic problem, with the spans and strings its message needs.
#[derive(Clone, Debug)]
pub enum SemanticKind {
    /// A call whose argument count does not match the callee: the call
    /// span, the displayable parameter types, the expected and the actual
    /// argument count, and a suggested call form.
    ArgumentsMismatch(Span, String, usize, usize, String),
    /// A call to a function that is not in scope: the call span and the name.
    FunctionNotFound(Span, String),
    /// A reference to an identifier that is not in scope.
    IdentifierNotFound(Span, String),
    /// No entry-point function exists: a zero-width span at the end of the
    /// program and the displayable path of the source file.
    MainNotFound(Span, String),
    /// The entry-point function has parameters: their displayable types,
    /// comma-joined, and the merged span of all of them.
    MainHasInputs(String, Span),
    /// A name already declared in the scope.
    NameClash(Span, String),
    /// An identifier that does not follow a naming convention: the
    /// identifier, the convention it should follow, and its span.
    NamingConvention(String, String, Span),
    /// A `break` or `continue` outside any loop: its span and the behavior word.
    OutOfLoop(Span, String),
    /// A value of the wrong type: the span, the expected and the found type.
    TypeMismatch(Span, String, String),
}

/// A message pointing at one span of the source.
#[derive(Clone, Debug)]
pub struct Label {
    pub span: Span,
    pub message: String,
}

/// A rendered diagnostic: severity, title, primary labels, explanatory
/// notes, and suggested-fix lines.
#[derive(Clone, Debug)]
pub struct ReportMessage {
    pub severity: Severity,
    pub title: String,
    pub labels: Vec<Label>,
    pub notes: Vec<String>,
    pub helps: Vec<String>,
}

/// Only naming-convention reports are warnings; every other kind is an error.
pub open spec fn severity_of(kind: SemanticKind) -> Severity {
    match kind {
        SemanticKind::NamingConvention(_, _, _) => Severity::Warning,
        _ => Severity::Error,
    }
}

/// The title of the rendered message for each kind.
pub open spec fn title_of(kind: SemanticKind) -> Seq<char> {
    match kind {
        SemanticKind::ArgumentsMismatch(_, _, _, _, _) => "arguments mismatch"@,
        SemanticKind::FunctionNotFound(_, name) => "function `"@ + name@ + "` not found"@,
        SemanticKind::IdentifierNotFound(_, name) => "identifier `"@ + name@ + "` not found"@,
        SemanticKind::MainNotFound(_, _) => "`main` function not found"@,
        SemanticKind::MainHasInputs(_, _) => "`main` function defined with arguments"@,
        SemanticKind::NameClash(_, name) => "variable `"@ + name@ + "` already exists"@,
        SemanticKind::NamingConvention(identifier, naming, _) => "variable `"@ + identifier@
            + "` should have a `"@ + naming@ + "`"@,
        SemanticKind::OutOfLoop(_, behavior) => "`"@ + behavior@ + "` outside of the loop"@,
        SemanticKind::TypeMismatch(_, _, _) => "type mismatch"@,
    }
}

/// The span the primary label of each kind points at.
pub open spec fn label_span_of(kind: SemanticKind) -> Span {
    match kind {
        SemanticKind::ArgumentsMismatch(span, _, _, _, _) => span,
        SemanticKind::FunctionNotFound(span, _) => span,
        SemanticKind::IdentifierNotFound(span, _) => span,
        SemanticKind::MainNotFound(span, _) => span,
        SemanticKind::MainHasInputs(_, span) => span,
        SemanticKind::NameClash(span, _) => span,
        SemanticKind::NamingConvention(_, _, span) => span,
        SemanticKind::OutOfLoop(span, _) => span,
        SemanticKind::TypeMismatch(span, _, _) => span,
    }
}

/// The text of the primary label for each kind.
pub open spec fn label_text_of(kind: SemanticKind) -> Seq<char> {
    match kind {
        SemanticKind::ArgumentsMismatch(_, inputs, expected_len, _, _) => "the input "@
            + plural_or_singular(expected_len as nat, "argument"@) + " of type ("@ + inputs@
            + ") are required"@,
        SemanticKind::FunctionNotFound(_, _) =>
            "this call requires a function that does not exist in this scope"@,
        SemanticKind::IdentifierNotFound(_, _) => "this identifier does not exist in this scope"@,
        SemanticKind::MainNotFound(_, path) => "add a `main` function to "@ + path@,
        SemanticKind::MainHasInputs(_, _) =>
            "no arguments should be given to the main function"@,
        SemanticKind::NameClash(_, _) => "this name is already declared in the scope"@,
        SemanticKind::NamingConvention(identifier, naming, _) => "change this identifier to `"@
            + naming@ + "` convention: `"@ + identifier@ + "`"@,
        SemanticKind::OutOfLoop(_, behavior) => "cannot `"@ + behavior@ + "` out of the loop"@,
        SemanticKind::TypeMismatch(_, expected, found) => "expected `"@ + expected@ + "`, found `"@
            + found@ + "`"@,
    }
}

/// The explanatory notes for each kind: only an arguments mismatch
/// carries one, stating the expected and the supplied count with the
/// noun pluralized independently for each.
pub open spec fn notes_of(kind: SemanticKind) -> Seq<Seq<char>> {
    match kind {
        SemanticKind::ArgumentsMismatch(_, _, expected_len, actual_len, _) => seq![
            "this function takes "@ + dec_chars(expected_len as nat) + " "@ + plural_or_singular(
                expected_len as nat,
                "argument"@,
            ) + " but "@ + dec_chars(actual_len as nat) + " "@ + plural_or_singular(
                actual_len as nat,
                "argument"@,
            ) + " were supplied"@,
        ],
        _ => Seq::empty(),
    }
}

/// The suggested-fix lines for each kind.
pub open spec fn helps_of(kind: SemanticKind) -> Seq<Seq<char>> {
    match kind {
        SemanticKind::ArgumentsMismatch(_, _, _, _, should_be) => seq![
            "try this: "@ + should_be@,
        ],
        SemanticKind::MainNotFound(_, _) => seq!["add `fun main() {}`"@],
        SemanticKind::MainHasInputs(inputs, _) => seq![
            "expected `fun()` actual `fun("@ + inputs@ + ")`"@,
        ],
        _ => Seq::empty(),
    }
}

/// What the renderer promises of its result: every part of the message
/// equals the content that the spec functions fix for the kind.
pub open spec fn message_matches(kind: SemanticKind, message: ReportMessage) -> bool {
    &&& message.severity == severity_of(kind)
    &&& message.title@ == title_of(kind)
    &&& message.labels@.len() == 1
    &&& message.labels@[0].span == label_span_of(kind)
    &&& message.labels@[0].message@ == label_text_of(kind)
    &&& message.notes.deep_view() == notes_of(kind)
    &&& message.helps.deep_view() == helps_of(kind)
}

fn single_label(span: Span, message: String) -> (labels: Vec<Label>)
    ensures
        labels@.len() == 1,
        labels@[0].span == span,
        labels@[0].message == message,
{
    let mut labels: Vec<Label> = Vec::new();
    labels.push(Label { span, message });
    labels
}

fn no_lines() -> (lines: Vec<String>)
    ensures
        lines.deep_view() == Seq::<Seq<char>>::empty(),
{
    let lines: Vec<String> = Vec::new();
    proof {
        assert(lines.deep_view() =~= Seq::<Seq<char>>::empty());
    }
    lines
}

fn one_line(line: String) -> (lines: Vec<String>)
    ensures
        lines.deep_view() == seq![line@],
{
    let mut lines: Vec<String> = Vec::new();
    lines.push(line);
    proof {
        assert(lines.deep_view() =~= seq![line@]);
    }
    lines
}

/// Renders one semantic report kind to its message parts. The content of
/// every part is pinned by `message_matches`, so two renderings of the
/// same kind are identical.
pub fn write_semantic_report(kind: &SemanticKind) -> (message: ReportMessage)
    ensures
        message_matches(*kind, message),
{
    match kind {
        SemanticKind::ArgumentsMismatch(span, inputs, expected_len, actual_len, should_be) => {
            let expected_word = to_plural_or_singular(*expected_len, "argument");
            let actual_word = to_plural_or_singular(*actual_len, "argument");

            let mut label_text = String::from_str("the input ");
            label_text.append(expected_word.as_str());
            label_text.append(" of type (");
            label_text.append(inputs.as_str());
            label_text.append(") are required");

            let expected_count = usize_to_string(*expected_len);
            let actual_count = usize_to_string(*actual_len);
            let mut note = String::from_str("this function takes ");
            note.append(expected_count.as_str());
            note.append(" ");
            note.append(expected_word.as_str());
            note.append(" but ");
            note.append(actual_count.as_str());
            note.append(" ");
            note.append(actual_word.as_str());
            note.append(" were supplied");

            let mut help = String::from_str("try this: ");
            help.append(should_be.as_str());

            ReportMessage {
                severity: Severity::Error,
                title: String::from_str("arguments mismatch"),
                labels: single_label(*span, label_text),
                notes: one_line(note),
                helps: one_line(help),
            }
        },
        SemanticKind::FunctionNotFound(span, name) => {
            let mut title = String::from_str("function `");
            title.append(name.as_str());
            title.append("` not found");
            ReportMessage {
                severity: Severity::Error,
                title,
                labels: single_label(
                    *span,
                    String::from_str(
                        "this call requires a function that does not exist in this scope",
                    ),
                ),
                notes: no_lines(),
                helps: no_lines(),
            }
        },
        SemanticKind::IdentifierNotFound(span, name) => {
            let mut title = String::from_str("identifier `");
            title.append(name.as_str());
            title.append("` not found");
            ReportMessage {
                severity: Severity::Error,
                title,
                labels: single_label(
                    *span,
                    String::from_str("this identifier does not exist in this scope"),
                ),
                notes: no_lines(),
                helps: no_lines(),
            }
        },
        SemanticKind::MainNotFound(span, path) => {
            let mut label_text = String::from_str("add a `main` function to ");
            label_text.append(path.as_str());
            ReportMessage {
                severity: Severity::Error,
                title: String::from_str("`main` function not found"),
                labels: single_label(*span, label_text),
                notes: no_lines(),
                helps: one_line(String::from_str("add `fun main() {}`")),
            }
        },
        SemanticKind::MainHasInputs(inputs, span) => {
            let mut help = String::from_str("expected `fun()` actual `fun(");
            help.append(inputs.as_str());
            help.append(")`");
            ReportMessage {
                severity: Severity::Error,
                title: String::from_str("`main` function defined with arguments"),
                labels: single_label(
                    *span,
                    String::from_str("no arguments should be given to the main function"),
                ),
                notes: no_lines(),
                helps: one_line(help),
            }
        },
        SemanticKind::NameClash(span, name) => {
            let mut title = String::from_str("variable `");
            title.append(name.as_str());
            title.append("` already exists");
            ReportMessage {
                severity: Severity::Error,
                title,
                labels: single_label(
                    *span,
                    String::from_str("this name is already declared in the scope"),
                ),
                notes: no_lines(),
                helps: no_lines(),
            }
        },
        SemanticKind::NamingConvention(identifier, naming, span) => {
            let mut title = String::from_str("variable `");
            title.append(identifier.as_str());
            title.append("` should have a `");
            title.append(naming.as_str());
            title.append("`");
            let mut label_text = String::from_str("change this identifier to `");
            label_text.append(naming.as_str());
            label_text.append("` convention: `");
            label_text.append(identifier.as_str());
            label_text.append("`");
            ReportMessage {
                severity: Severity::Warning,
                title,
                labels: single_label(*span, label_text),
                notes: no_lines(),
                helps: no_lines(),
            }
        },
        SemanticKind::OutOfLoop(span, behavior) => {
            let mut title = String::from_str("`");
            title.append(behavior.as_str());
            title.append("` outside of the loop");
            let mut label_text = String::from_str("cannot `");
            label_text.append(behavior.as_str());
            label_text.append("` out of the loop");
            ReportMessage {
                severity: Severity::Error,
                title,
                labels: single_label(*span, label_text),
                notes: no_lines(),
                helps: no_lines(),
            }
        },
        SemanticKind::TypeMismatch(span, expected, found) => {
            let mut label_text = String::from_str("expected `");
            label_text.append(expected.as_str());
            label_text.append("`, found `");
            label_text.append(found.as_str());
            label_text.append("`");
            ReportMessage {
                severity: Severity::Error,
                title: String::from_str("type mismatch"),
                labels: single_label(*span, label_text),
                notes: no_lines(),
                helps: no_lines(),
            }
        },
    }
}

/// Rendering is deterministic: any two messages that satisfy the
/// renderer's contract for the same kind agree in every part.
pub proof fn lemma_render_deterministic(
    kind: SemanticKind,
    first: ReportMessage,
    second: ReportMessage,
)
    requires
        message_matches(kind, first),
        message_matches(kind, second),
    ensures
        first.severity == second.severity,
        first.title@ == second.title@,
        first.labels@.len() == second.labels@.len(),
        first.labels@[0].span == second.labels@[0].span,
        first.labels@[0].message@ == second.labels@[0].message@,
        first.notes.deep_view() == second.notes.deep_view(),
        first.helps.deep_view() == second.helps.deep_view(),
{
}

} // verus!
