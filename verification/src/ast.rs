//! The miniC syntax tree: an owned, tree-shaped structure built bottom-up by
//! the grammar engine, together with its mathematical model (the `Spec*`
//! mirror types, whose text is `Seq<char>` and whose numbers are `int`) and
//! the view functions that relate the two.

use vstd::prelude::*;

verus! {

/// A whole translation unit: one or more functions.
#[derive(Debug, PartialEq, Eq)]
pub struct Program {
    pub functions: Vec<Function>,
}

/// A function definition: return type, name, at most one parameter, local
/// variable declarations, then statements.
#[derive(Debug, PartialEq, Eq)]
pub struct Function {
    pub return_type: Type,
    pub name: Identifier,
    pub parameter: Option<Parameter>,
    pub variables: Vec<Variable>,
    pub statements: Vec<Statement>,
}

/// The single optional formal parameter of a function.
#[derive(Debug, Clone, PartialEq, Eq)]
pub struct Parameter {
    pub kind: Type,
    pub identifier: Identifier,
}

/// A local variable declaration.
#[derive(Debug, Clone, PartialEq, Eq)]
pub struct Variable {
    pub kind: Type,
    pub identifier: Identifier,
}

/// A statement; `if`/`else` branches and compound members are owned
/// recursively.
#[derive(Debug, PartialEq, Eq)]
pub enum Statement {
    Assignment { lhs: Identifier, rhs: Exp },
    If { condition: RelExp, if_part: Box<Statement>, else_part: Option<Box<Statement>> },
    Return { value: Exp },
    Compound(Vec<Statement>),
}

/// A relational expression: exactly one comparison, no chaining.
#[derive(Debug, PartialEq, Eq)]
pub struct RelExp {
    pub lhs: Exp,
    pub operator: Relop,
    pub rhs: Exp,
}

/// An arithmetic expression. `Binary` chains of equal precedence are
/// left-leaning.
#[derive(Debug, PartialEq, Eq)]
pub enum Exp {
    Literal(Literal),
    Identifier(Identifier),
    FunctionCall { name: Identifier, arg: Option<Box<Exp>> },
    Binary(Box<Exp>, Arop, Box<Exp>),
}

/// The two value types of the language.
#[derive(Debug, Clone, Copy, PartialEq, Eq)]
pub enum Type {
    Int,
    Unsigned,
}

/// Arithmetic operators.
#[derive(Debug, Clone, Copy, PartialEq, Eq)]
pub enum Arop {
    Add,
    Sub,
    Mul,
    Div,
}

/// Relational operators.
#[derive(Debug, Clone, Copy, PartialEq, Eq)]
pub enum Relop {
    Lt,
    Gt,
    Le,
    Ge,
    Eq,
    Ne,
}

/// A name appearing in the source.
#[derive(Debug, Clone, PartialEq, Eq)]
pub struct Identifier(pub String);

/// An integer literal; signed and unsigned are tagged distinctly because the
/// surface syntax distinguishes them via a trailing suffix.
#[derive(Debug, Clone, PartialEq, Eq)]
pub enum Literal {
    IntNum(i32),
    UintNum(u32),
}

// ---------------------------------------------------------------------------
// Mathematical model of the tree.
// ---------------------------------------------------------------------------

/// Model of `Literal` with unbounded integers.
#[verifier::ext_equal]
pub enum SpecLiteral {
    IntNum(int),
    UintNum(int),
}

/// Model of `Exp`.
#[verifier::ext_equal]
pub enum SpecExp {
    Literal(SpecLiteral),
    Identifier(Seq<char>),
    FunctionCall { name: Seq<char>, arg: Option<Box<SpecExp>> },
    Binary(Box<SpecExp>, Arop, Box<SpecExp>),
}

/// Model of `RelExp`.
#[verifier::ext_equal]
pub struct SpecRelExp {
    pub lhs: SpecExp,
    pub operator: Relop,
    pub rhs: SpecExp,
}

/// Model of `Statement`.
#[verifier::ext_equal]
pub enum SpecStatement {
    Assignment { lhs: Seq<char>, rhs: SpecExp },
    If { condition: SpecRelExp, if_part: Box<SpecStatement>, else_part: Option<Box<SpecStatement>> },
    Return { value: SpecExp },
    Compound(Seq<SpecStatement>),
}

/// Model of `Parameter`.
#[verifier::ext_equal]
pub struct SpecParameter {
    pub kind: Type,
    pub name: Seq<char>,
}

/// Model of `Variable`.
#[verifier::ext_equal]
pub struct SpecVariable {
    pub kind: Type,
    pub name: Seq<char>,
}

/// Model of `Function`.
#[verifier::ext_equal]
pub struct SpecFunction {
    pub return_type: Type,
    pub name: Seq<char>,
    pub parameter: Option<SpecParameter>,
    pub variables: Seq<SpecVariable>,
    pub statements: Seq<SpecStatement>,
}

/// Model of `Program`.
#[verifier::ext_equal]
pub struct SpecProgram {
    pub functions: Seq<SpecFunction>,
}

// ---------------------------------------------------------------------------
// Views: each executable tree node abstracts to its model.
// ---------------------------------------------------------------------------

impl View for Identifier {
    type V = Seq<char>;

    open spec fn view(&self) -> Seq<char> {
        self.0@
    }
}

impl View for Literal {
    type V = SpecLiteral;

    open spec fn view(&self) -> SpecLiteral {
        match self {
            Literal::IntNum(v) => SpecLiteral::IntNum(*v as int),
            Literal::UintNum(v) => SpecLiteral::UintNum(*v as int),
        }
    }
}

pub open spec fn view_exp(e: Exp) -> SpecExp
    decreases e,
{
    match e {
        Exp::Literal(l) => SpecExp::Literal(l@),
        Exp::Identifier(i) => SpecExp::Identifier(i@),
        Exp::FunctionCall { name, arg } => SpecExp::FunctionCall {
            name: name@,
            arg: match arg {
                Some(b) => Some(Box::new(view_exp(*b))),
                None => None,
            },
        },
        Exp::Binary(l, op, r) => SpecExp::Binary(Box::new(view_exp(*l)), op, Box::new(view_exp(*r))),
    }
}

impl View for Exp {
    type V = SpecExp;

    open spec fn view(&self) -> SpecExp {
        view_exp(*self)
    }
}

impl View for RelExp {
    type V = SpecRelExp;

    open spec fn view(&self) -> SpecRelExp {
        SpecRelExp { lhs: self.lhs@, operator: self.operator, rhs: self.rhs@ }
    }
}

pub open spec fn view_stmt(s: Statement) -> SpecStatement
    decreases s,
{
    match s {
        Statement::Assignment { lhs, rhs } => SpecStatement::Assignment { lhs: lhs@, rhs: rhs@ },
        Statement::If { condition, if_part, else_part } => SpecStatement::If {
            condition: condition@,
            if_part: Box::new(view_stmt(*if_part)),
            else_part: match else_part {
                Some(b) => Some(Box::new(view_stmt(*b))),
                None => None,
            },
        },
        Statement::Return { value } => SpecStatement::Return { value: value@ },
        Statement::Compound(v) => SpecStatement::Compound(view_stmts(v@)),
    }
}

pub open spec fn view_stmts(v: Seq<Statement>) -> Seq<SpecStatement>
    decreases v,
{
    if v.len() == 0 {
        Seq::empty()
    } else {
        seq![view_stmt(v[0])] + view_stmts(v.drop_first())
    }
}

impl View for Statement {
    type V = SpecStatement;

    open spec fn view(&self) -> SpecStatement {
        view_stmt(*self)
    }
}

impl View for Parameter {
    type V = SpecParameter;

    open spec fn view(&self) -> SpecParameter {
        SpecParameter { kind: self.kind, name: self.identifier@ }
    }
}

impl View for Variable {
    type V = SpecVariable;

    open spec fn view(&self) -> SpecVariable {
        SpecVariable { kind: self.kind, name: self.identifier@ }
    }
}

pub open spec fn view_vars(v: Seq<Variable>) -> Seq<SpecVariable> {
    Seq::new(v.len(), |i: int| v[i]@)
}

pub open spec fn view_funs(v: Seq<Function>) -> Seq<SpecFunction> {
    Seq::new(v.len(), |i: int| v[i]@)
}

impl View for Function {
    type V = SpecFunction;

    open spec fn view(&self) -> SpecFunction {
        SpecFunction {
            return_type: self.return_type,
            name: self.name@,
            parameter: match self.parameter {
                Some(p) => Some(p@),
                None => None,
            },
            variables: view_vars(self.variables@),
            statements: view_stmts(self.statements@),
        }
    }
}

impl View for Program {
    type V = SpecProgram;

    open spec fn view(&self) -> SpecProgram {
        SpecProgram { functions: view_funs(self.functions@) }
    }
}

// ---------------------------------------------------------------------------
// Small facts about the views, used when the grammar engine grows a sequence
// of tree nodes one element at a time.
// ---------------------------------------------------------------------------

pub proof fn lemma_view_stmts_cons(st: Statement, v: Seq<Statement>)
    ensures
        view_stmts(v.insert(0, st)) == seq![view_stmt(st)] + view_stmts(v),
{
    let w = v.insert(0, st);
    assert(w[0] == st);
    assert(w.drop_first() =~= v);
}

pub proof fn lemma_view_vars_cons(x: Variable, v: Seq<Variable>)
    ensures
        view_vars(v.insert(0, x)) == seq![x@] + view_vars(v),
{
    assert(view_vars(v.insert(0, x)) =~= seq![x@] + view_vars(v));
}

pub proof fn lemma_view_funs_cons(x: Function, v: Seq<Function>)
    ensures
        view_funs(v.insert(0, x)) == seq![x@] + view_funs(v),
{
    assert(view_funs(v.insert(0, x)) =~= seq![x@] + view_funs(v));
}

} // verus!
