//! The builtin declaration table: backend-provided primitives whose
//! signatures the front end knows, so calls into them can be checked
//! for existence and arity, and codegen can bind their symbols.

use vstd::prelude::*;

use crate::ast::Ty;
use crate::semantic::SemanticKind;
use crate::span::Span;
use crate::strcase::{join_comma, join_with_comma};

verus! {

/// A call signature: the ordered parameter types and the return type.
#[derive(Clone, Debug)]
pub struct Proto(pub Vec<Ty>, pub Ty);

/// One builtin: its name and its signature.
#[derive(Clone, Debug)]
pub struct Builtin {
    pub name: String,
    pub proto: Proto,
}

impl Builtin {
    pub fn new(name: String, proto: Proto) -> (builtin: Builtin)
        ensures
            builtin == (Builtin { name, proto }),
    {
        Builtin { name, proto }
    }
}

/// No two builtins share a name; a duplicate would silently shadow and
/// is rejected as a configuration error.
pub open spec fn builtin_names_unique(builtins: Seq<Builtin>) -> bool {
    forall|i: int, j: int|
        0 <= i < j < builtins.len() ==> builtins[i].name@ != builtins[j].name@
}

/// The system builtins: `exit`, `create` and `open`, with the
/// signatures the backend provides them under.
pub fn sys_builtins() -> (builtins: Vec<Builtin>)
    ensures
        builtins@.len() == 3,
        builtins@[0].name@ == "exit"@,
        builtins@[0].proto.0@ == seq![Ty::Int],
        builtins@[0].proto.1 == Ty::Void,
        builtins@[1].name@ == "create"@,
        builtins@[1].proto.0@ == seq![Ty::Str, Ty::Str],
        builtins@[1].proto.1 == Ty::Void,
        builtins@[2].name@ == "open"@,
        builtins@[2].proto.0@ == seq![Ty::Str],
        builtins@[2].proto.1 == Ty::Str,
        builtin_names_unique(builtins@),
{
    let mut exit_params: Vec<Ty> = Vec::new();
    exit_params.push(Ty::Int);
    let mut create_params: Vec<Ty> = Vec::new();
    create_params.push(Ty::Str);
    create_params.push(Ty::Str);
    let mut open_params: Vec<Ty> = Vec::new();
    open_params.push(Ty::Str);

    let mut builtins: Vec<Builtin> = Vec::new();
    builtins.push(Builtin::new(String::from_str("exit"), Proto(exit_params, Ty::Void)));
    builtins.push(Builtin::new(String::from_str("create"), Proto(create_params, Ty::Void)));
    builtins.push(Builtin::new(String::from_str("open"), Proto(open_params, Ty::Str)));
    proof {
        reveal_strlit("exit");
        reveal_strlit("create");
        reveal_strlit("open");
        assert(builtins@[0].proto.0@ =~= seq![Ty::Int]);
        assert(builtins@[1].proto.0@ =~= seq![Ty::Str, Ty::Str]);
        assert(builtins@[2].proto.0@ =~= seq![Ty::Str]);
        assert("exit"@.len() == 4 && "create"@.len() == 6 && "open"@.len() == 4);
        assert("exit"@[0] != "open"@[0]);
    }
    builtins
}

/// `index` points at the first builtin named `name`.
pub open spec fn builtin_at(builtins: Seq<Builtin>, name: Seq<char>, index: int) -> bool {
    &&& 0 <= index < builtins.len()
    &&& builtins[index].name@ == name
    &&& forall|k: int| 0 <= k < index ==> builtins[k].name@ != name
}

/// Looks a builtin up by name: the index of the first entry so named,
/// or nothing when no entry carries the name.
pub fn lookup_builtin(builtins: &Vec<Builtin>, name: &String) -> (found: Option<usize>)
    ensures
        match found {
            Some(index) => builtin_at(builtins@, name@, index as int),
            None => forall|k: int| 0 <= k < builtins@.len() ==> builtins@[k].name@ != name@,
        },
{
    let mut i: usize = 0;
    while i < builtins.len()
        invariant
            0 <= i <= builtins@.len(),
            forall|k: int| 0 <= k < i as int ==> builtins@[k].name@ != name@,
        decreases builtins@.len() - i,
    {
        if builtins[i].name.eq(name) {
            return Some(i);
        }
        i = i + 1;
    }
    None
}

/// The display texts of a signature's parameter types, in order.
pub open spec fn proto_ty_texts(params: Seq<Ty>) -> Seq<Seq<char>> {
    Seq::new(params.len(), |i: int| params[i].text())
}

fn proto_texts(params: &Vec<Ty>) -> (texts: Vec<String>)
    ensures
        texts.deep_view() == proto_ty_texts(params@),
{
    let mut texts: Vec<String> = Vec::new();
    let mut i: usize = 0;
    proof {
        assert(texts.deep_view() =~= proto_ty_texts(params@).take(0));
    }
    while i < params.len()
        invariant
            0 <= i <= params@.len(),
            texts@.len() == i as int,
            texts.deep_view() == proto_ty_texts(params@).take(i as int),
        decreases params@.len() - i,
    {
        let text = params[i].to_text();
        texts.push(text);
        proof {
            assert(texts.deep_view() =~= proto_ty_texts(params@).take(i + 1));
        }
        i = i + 1;
    }
    proof {
        assert(proto_ty_texts(params@).take(params@.len() as int) =~= proto_ty_texts(params@));
    }
    texts
}

/// The suggested call form for a builtin: its name, then its parameter
/// types joined in parentheses.
pub open spec fn call_form(name: Seq<char>, params: Seq<Ty>) -> Seq<char> {
    name + "("@ + join_comma(proto_ty_texts(params)) + ")"@
}

/// Resolves a call to a builtin by name and argument count. A name no
/// builtin carries fails with `FunctionNotFound`; a known name called
/// with the wrong number of arguments fails with `ArgumentsMismatch`;
/// a known name with the right count resolves cleanly.
pub fn resolve_call(builtins: &Vec<Builtin>, name: &String, span: Span, args_len: usize) -> (failure:
    Option<SemanticKind>)
    ensures
        (forall|k: int| 0 <= k < builtins@.len() ==> builtins@[k].name@ != name@) ==> (
        failure matches Some(kind) && kind matches SemanticKind::FunctionNotFound(
            failure_span,
            failure_name,
        ) && failure_span == span && failure_name@ == name@),
        forall|j: int|
            #[trigger] builtin_at(builtins@, name@, j) ==> if builtins@[j].proto.0@.len()
                == args_len as int {
                failure is None
            } else {
                failure matches Some(kind) && kind matches SemanticKind::ArgumentsMismatch(
                    failure_span,
                    inputs,
                    expected_len,
                    actual_len,
                    should_be,
                ) && failure_span == span && inputs@ == join_comma(
                    proto_ty_texts(builtins@[j].proto.0@),
                ) && expected_len == builtins@[j].proto.0@.len() && actual_len == args_len
                    && should_be@ == call_form(name@, builtins@[j].proto.0@)
            },
{
    match lookup_builtin(builtins, name) {
        None => Some(SemanticKind::FunctionNotFound(span, name.clone())),
        Some(index) => {
            let builtin = &builtins[index];
            if builtin.proto.0.len() == args_len {
                proof {
                    assert forall|j: int| #[trigger] builtin_at(builtins@, name@, j) implies j
                        == index as int by {
                        lemma_builtin_at_unique(builtins@, name@, j, index as int);
                    }
                }
                None
            } else {
                let texts = proto_texts(&builtin.proto.0);
                let joined = join_with_comma(&texts);
                let mut should_be = name.clone();
                should_be.append("(");
                should_be.append(joined.as_str());
                should_be.append(")");
                proof {
                    assert forall|j: int| #[trigger] builtin_at(builtins@, name@, j) implies j
                        == index as int by {
                        lemma_builtin_at_unique(builtins@, name@, j, index as int);
                    }
                }
                Some(
                    SemanticKind::ArgumentsMismatch(
                        span,
                        joined,
                        builtin.proto.0.len(),
                        args_len,
                        should_be,
                    ),
                )
            }
        },
    }
}

/// The first index carrying a name is unique.
pub proof fn lemma_builtin_at_unique(
    builtins: Seq<Builtin>,
    name: Seq<char>,
    first: int,
    second: int,
)
    requires
        builtin_at(builtins, name, first),
        builtin_at(builtins, name, second),
    ensures
        first == second,
{
    if first < second {
        assert(builtins[first].name@ != name);
    }
    if second < first {
        assert(builtins[second].name@ != name);
    }
}

/// Checks the table for duplicate names, which would silently shadow:
/// true exactly when all names are distinct.
pub fn has_unique_names(builtins: &Vec<Builtin>) -> (unique: bool)
    ensures
        unique == builtin_names_unique(builtins@),
{
    let mut i: usize = 0;
    while i < builtins.len()
        invariant
            0 <= i <= builtins@.len(),
            forall|p: int, q: int|
                0 <= p < q < builtins@.len() && q < i as int ==> builtins@[p].name@
                    != builtins@[q].name@,
        decreases builtins@.len() - i,
    {
        let mut j: usize = 0;
        while j < i
            invariant
                0 <= j <= i < builtins@.len(),
                forall|p: int| 0 <= p < j as int ==> builtins@[p].name@ != builtins@[i as int].name@,
            decreases i - j,
        {
            if builtins[j].name.eq(&builtins[i].name) {
                proof {
                    assert(builtins@[j as int].name@ == builtins@[i as int].name@);
                }
                return false;
            }
            j = j + 1;
        }
        i = i + 1;
    }
    true
}

} // verus!
