//! Documentation extracted from rule-language definitions.
//!
//! A `def` statement documents itself by opening its body with a string
//! literal; an assignment is documented by the statement right before it.
//! The rule language's runtime owns parsing and its own documentation value
//! model; what this module decides is which statement carries the docstring
//! and which parameters a documented function exposes, over a model of the
//! syntax tree holding exactly what those decisions read.

use vstd::prelude::*;

verus! {

/// An expression, as far as docstring extraction reads it.
#[derive(Clone, Debug)]
pub enum AstExpr {
    /// A string literal.
    StringLiteral(String),
    /// Anything else.
    Other,
}

/// A statement, as far as docstring extraction reads it.
#[derive(Debug)]
pub enum AstStmt {
    /// A block of statements.
    Statements(Vec<AstStmt>),
    /// An expression statement.
    Expression(AstExpr),
    /// Anything else.
    Other,
}

/// One parameter of a `def` statement.
#[derive(Clone, Debug)]
pub enum AstParameter {
    /// An ordinary named parameter.
    Normal(String),
    /// A `*args` parameter.
    Args(String),
    /// A `**kwargs` parameter.
    KwArgs(String),
    /// The positional-only marker `/`.
    Slash,
    /// The keyword-only marker `*`.
    Star,
}

/// A `def` statement: its parameters and its body.
#[derive(Debug)]
pub struct AstDef {
    pub params: Vec<AstParameter>,
    pub body: AstStmt,
}

/// An assignment target; docstring extraction reads nothing of it.
#[derive(Clone, Debug)]
pub struct AstAssignTarget {
    pub name: String,
}

/// One documented parameter.
#[derive(Clone, Debug, PartialEq, Eq)]
pub struct DocParam {
    pub name: String,
}

/// A documented function: its raw docstring and its parameters.
#[derive(Clone, Debug, PartialEq, Eq)]
pub struct DocFunction {
    pub docstring: String,
    pub params: Vec<DocParam>,
}

/// A documented property: its raw docstring.
#[derive(Clone, Debug, PartialEq, Eq)]
pub struct DocProperty {
    pub docstring: String,
}

/// The docstring a statement opens with: the first statement of a block,
/// followed until a string-literal expression is reached.
pub open spec fn peek_docstring_spec(stmt: AstStmt) -> Option<Seq<char>>
    decreases stmt,
{
    match stmt {
        AstStmt::Statements(stmts) => {
            if stmts@.len() == 0 {
                None
            } else {
                peek_docstring_spec(stmts@[0])
            }
        },
        AstStmt::Expression(e) => match e {
            AstExpr::StringLiteral(s) => Some(s@),
            AstExpr::Other => None,
        },
        AstStmt::Other => None,
    }
}

/// The parameter names a documented function exposes: named, `*args` and
/// `**kwargs` parameters in order; the bare markers contribute nothing.
pub open spec fn doc_params_spec(params: Seq<AstParameter>) -> Seq<Seq<char>>
    decreases params.len(),
{
    if params.len() == 0 {
        Seq::<Seq<char>>::empty()
    } else {
        (match params[0] {
            AstParameter::Normal(n) => seq![n@],
            AstParameter::Args(n) => seq![n@],
            AstParameter::KwArgs(n) => seq![n@],
            _ => Seq::<Seq<char>>::empty(),
        }) + doc_params_spec(params.subrange(1, params.len() as int))
    }
}

proof fn lemma_doc_params_snoc(params: Seq<AstParameter>, x: AstParameter)
    ensures
        doc_params_spec(params.push(x)) == doc_params_spec(params) + (match x {
            AstParameter::Normal(n) => seq![n@],
            AstParameter::Args(n) => seq![n@],
            AstParameter::KwArgs(n) => seq![n@],
            _ => Seq::<Seq<char>>::empty(),
        }),
    decreases params.len(),
{
    let tailp = params.push(x).subrange(1, params.push(x).len() as int);
    if params.len() == 0 {
        assert(params.push(x)[0] == x);
        assert(tailp =~= Seq::<AstParameter>::empty());
        assert(doc_params_spec(tailp) == Seq::<Seq<char>>::empty());
        assert(doc_params_spec(params.push(x)) =~= doc_params_spec(params) + (match x {
            AstParameter::Normal(n) => seq![n@],
            AstParameter::Args(n) => seq![n@],
            AstParameter::KwArgs(n) => seq![n@],
            _ => Seq::<Seq<char>>::empty(),
        }));
    } else {
        let tail = params.subrange(1, params.len() as int);
        assert(params.push(x)[0] == params[0]);
        assert(tailp =~= tail.push(x));
        lemma_doc_params_snoc(tail, x);
        assert(doc_params_spec(params.push(x)) =~= doc_params_spec(params) + (match x {
            AstParameter::Normal(n) => seq![n@],
            AstParameter::Args(n) => seq![n@],
            AstParameter::KwArgs(n) => seq![n@],
            _ => Seq::<Seq<char>>::empty(),
        }));
    }
}

/// Finds the docstring a statement opens with, if any.
pub fn peek_docstring(stmt: &AstStmt) -> (r: Option<String>)
    ensures
        match r {
            Some(s) => peek_docstring_spec(*stmt) == Some(s@),
            None => peek_docstring_spec(*stmt) is None,
        },
    decreases *stmt,
{
    match stmt {
        AstStmt::Statements(stmts) => {
            if stmts.len() == 0 {
                None
            } else {
                peek_docstring(&stmts[0])
            }
        },
        AstStmt::Expression(e) => match e {
            AstExpr::StringLiteral(s) => Some(s.clone()),
            AstExpr::Other => None,
        },
        AstStmt::Other => None,
    }
}

/// The names of a sequence of documented parameters.
pub open spec fn doc_param_names(params: Seq<DocParam>) -> Seq<Seq<char>> {
    params.map_values(|p: DocParam| p.name@)
}

/// A documented function for a `def` statement, if its body opens with a
/// docstring: the raw docstring, and the function's named, `*args` and
/// `**kwargs` parameters in order.
pub fn get_doc_item_for_def(def: &AstDef) -> (r: Option<DocFunction>)
    ensures
        match r {
            Some(f) => {
                &&& peek_docstring_spec(def.body) == Some(f.docstring@)
                &&& doc_param_names(f.params@) == doc_params_spec(def.params@)
            },
            None => peek_docstring_spec(def.body) is None,
        },
{
    let doc_string = match peek_docstring(&def.body) {
        Some(d) => d,
        None => {
            return None;
        },
    };
    let mut args: Vec<DocParam> = Vec::new();
    let mut i: usize = 0;
    proof {
        assert(def.params@.subrange(0, 0) =~= Seq::<AstParameter>::empty());
        assert(doc_param_names(args@) =~= doc_params_spec(def.params@.subrange(0, 0)));
    }
    while i < def.params.len()
        invariant
            i <= def.params@.len(),
            doc_param_names(args@) == doc_params_spec(def.params@.subrange(0, i as int)),
        decreases def.params@.len() - i,
    {
        let ghost pre = def.params@.subrange(0, i as int);
        proof {
            assert(pre.push(def.params@[i as int]) =~= def.params@.subrange(0, i + 1));
            lemma_doc_params_snoc(pre, def.params@[i as int]);
        }
        let ghost before = args@;
        match &def.params[i] {
            AstParameter::Normal(n) => {
                args.push(DocParam { name: n.clone() });
                proof {
                    assert(doc_param_names(args@) =~= doc_param_names(before).push(n@));
                }
            },
            AstParameter::Args(n) => {
                args.push(DocParam { name: n.clone() });
                proof {
                    assert(doc_param_names(args@) =~= doc_param_names(before).push(n@));
                }
            },
            AstParameter::KwArgs(n) => {
                args.push(DocParam { name: n.clone() });
                proof {
                    assert(doc_param_names(args@) =~= doc_param_names(before).push(n@));
                }
            },
            _ => (),
        }
        proof {
            assert(doc_param_names(args@) =~= doc_params_spec(def.params@.subrange(0, i + 1)));
        }
        i += 1;
    }
    proof {
        assert(def.params@.subrange(0, def.params@.len() as int) =~= def.params@);
    }
    Some(DocFunction { docstring: doc_string, params: args })
}

/// A documented property for an assignment, if the statement right before
/// it is a docstring.
pub fn get_doc_item_for_assign(previous_node: &AstStmt, _assign: &AstAssignTarget) -> (r: Option<
    DocProperty,
>)
    ensures
        match r {
            Some(p) => peek_docstring_spec(*previous_node) == Some(p.docstring@),
            None => peek_docstring_spec(*previous_node) is None,
        },
{
    match peek_docstring(previous_node) {
        Some(d) => Some(DocProperty { docstring: d }),
        None => None,
    }
}

} // verus!
