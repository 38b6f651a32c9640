//! The grammar engine: a recursive-descent parser over the token sequence,
//! one function per grammar rule, with one-token lookahead choosing between
//! alternatives. The spec-level interpreter (`sp_*` functions) fixes, for
//! every token sequence, exactly which tree or which error comes out; every
//! executable `parser` method is proved to return what it says.
//!
//! Grammar, with the lookahead that picks each alternative:
//! ```text
//! Program    := Function+ end-of-input
//! Function   := Type Identifier '(' Parameter? ')' '{' Variable* Statement* '}'
//! Parameter  := Type Identifier
//! Variable   := Type Identifier ';'
//! Statement  := Assignment | If | Return | Compound   (by first token)
//! Assignment := Identifier '=' Exp ';'
//! If         := 'if' '(' RelExp ')' Statement ('else' Statement)?
//! Return     := 'return' Exp ';'
//! Compound   := '{' Statement* '}'
//! RelExp     := Exp Relop Exp
//! Exp        := Sum
//! Sum        := Product (('+'|'-') Product)*    (left-associative fold)
//! Product    := Atom (('*'|'/') Atom)*          (left-associative fold)
//! Atom       := FunctionCall | Identifier | Literal | '(' Exp ')'
//! FunctionCall := Identifier '(' Exp? ')'       (identifier then '(' is always a call)
//! ```
//!
//! There is no error recovery: the first mismatch is terminal and exactly one
//! error is reported.

use vstd::prelude::*;

use crate::ast::Arop;
use crate::ast::Exp;
use crate::ast::Function;
use crate::ast::Identifier;
use crate::ast::Literal;
use crate::ast::Parameter;
use crate::ast::Program;
use crate::ast::RelExp;
use crate::ast::Relop;
use crate::ast::Statement;
use crate::ast::SpecExp;
use crate::ast::SpecFunction;
use crate::ast::SpecLiteral;
use crate::ast::SpecParameter;
use crate::ast::SpecProgram;
use crate::ast::SpecRelExp;
use crate::ast::SpecStatement;
use crate::ast::SpecVariable;
use crate::ast::Type;
use crate::ast::Variable;
use crate::ast::lemma_view_funs_cons;
use crate::ast::lemma_view_stmts_cons;
use crate::ast::lemma_view_vars_cons;
use crate::ast::view_funs;
use crate::ast::view_stmts;
use crate::ast::view_vars;
use crate::error::Expected;
use crate::error::ParseError;
use crate::error::ParseReason;
use crate::error::Span;
use crate::error::SpecParseError;
use crate::error::SpecParseReason;
use crate::error::view_opt_token;
use crate::lexer::Ctrl;
use crate::lexer::Keyword;
use crate::lexer::Op;
use crate::lexer::SpecToken;
use crate::lexer::Token;
use crate::lexer::toks_view;

verus! {

// ---------------------------------------------------------------------------
// Looking at the token sequence.
// ---------------------------------------------------------------------------

/// The span used for end-of-input errors: one position wide, just past the
/// source text whose length is `end`.
pub open spec fn sp_eof_span(end: usize) -> Span {
    Span { start: end, end: (end + 1) as usize }
}

/// The token at position `p`, or `None` at (or past) the end of input.
pub open spec fn tok_at(t: Seq<(SpecToken, Span)>, p: int) -> Option<SpecToken> {
    if 0 <= p && p < t.len() {
        Some(t[p].0)
    } else {
        None
    }
}

/// The span of the token at `p`, or the end-of-input span.
pub open spec fn span_at(t: Seq<(SpecToken, Span)>, p: int, end: usize) -> Span {
    if 0 <= p && p < t.len() {
        t[p].1
    } else {
        sp_eof_span(end)
    }
}

/// The parse error reported at position `p`: the token found there (`None`
/// for end of input) was none of the expected shapes.
pub open spec fn sp_unexpected(t: Seq<(SpecToken, Span)>, p: int, end: usize, exp: Seq<Expected>) -> SpecParseError {
    SpecParseError {
        span: span_at(t, p, end),
        reason: SpecParseReason::UnexpectedToken { expected: exp, found: tok_at(t, p) },
    }
}

/// Fallback error for the positions-go-backwards branches that make the
/// termination of the spec interpreter evident; sub-parsers always advance,
/// so executable parsing never reaches it.
pub open spec fn sp_stuck(t: Seq<(SpecToken, Span)>, p: int, end: usize) -> SpecParseError {
    sp_unexpected(t, p, end, Seq::empty())
}

// ---------------------------------------------------------------------------
// Expected-token sets.
// ---------------------------------------------------------------------------

/// What may start a statement.
pub open spec fn sp_stmt_start_set() -> Seq<Expected> {
    seq![
        Expected::Ident,
        Expected::Kw(Keyword::If),
        Expected::Kw(Keyword::Return),
        Expected::Ctrl(Ctrl::LBracket),
    ]
}

/// What may follow the statements of a block: one more statement, or the
/// closing brace.
pub open spec fn sp_stmt_close_set() -> Seq<Expected> {
    sp_stmt_start_set() + seq![Expected::Ctrl(Ctrl::RBracket)]
}

/// What may stand where a type name is required.
pub open spec fn sp_type_set() -> Seq<Expected> {
    seq![Expected::Ty(crate::lexer::Type::Int), Expected::Ty(crate::lexer::Type::Unsigned)]
}

/// What may stand after `(` in a function header: a parameter or the
/// closing parenthesis.
pub open spec fn sp_param_set() -> Seq<Expected> {
    sp_type_set() + seq![Expected::Ctrl(Ctrl::RParen)]
}

/// What may stand after a function: another function or the end of input.
pub open spec fn sp_more_fns_set() -> Seq<Expected> {
    sp_type_set() + seq![Expected::End]
}

/// What may start an atom of an expression.
pub open spec fn sp_atom_set() -> Seq<Expected> {
    seq![Expected::Ident, Expected::Lit, Expected::Ctrl(Ctrl::LParen)]
}

/// The six relational operators.
pub open spec fn sp_relop_set() -> Seq<Expected> {
    seq![
        Expected::Op(Op::Lt),
        Expected::Op(Op::Gt),
        Expected::Op(Op::Le),
        Expected::Op(Op::Ge),
        Expected::Op(Op::Eq),
        Expected::Op(Op::Ne),
    ]
}

// ---------------------------------------------------------------------------
// The spec-level parser, one function per grammar rule. Each takes the token
// sequence, a position, and the end-of-input position, and returns the parsed
// model value with the position after it, or the single terminal error.
// ---------------------------------------------------------------------------

/// `Type := 'int' | 'unsigned'`.
pub open spec fn sp_type(t: Seq<(SpecToken, Span)>, p: int, end: usize) -> Result<(Type, int), SpecParseError> {
    match tok_at(t, p) {
        Some(SpecToken::Type(crate::lexer::Type::Int)) => Ok((Type::Int, p + 1)),
        Some(SpecToken::Type(crate::lexer::Type::Unsigned)) => Ok((Type::Unsigned, p + 1)),
        _ => Err(sp_unexpected(t, p, end, sp_type_set())),
    }
}

/// Any identifier token.
pub open spec fn sp_ident(t: Seq<(SpecToken, Span)>, p: int, end: usize) -> Result<(Seq<char>, int), SpecParseError> {
    match tok_at(t, p) {
        Some(SpecToken::Ident(name)) => Ok((name, p + 1)),
        _ => Err(sp_unexpected(t, p, end, seq![Expected::Ident])),
    }
}

/// Any literal token, signed or unsigned.
pub open spec fn sp_literal(t: Seq<(SpecToken, Span)>, p: int, end: usize) -> Result<(SpecLiteral, int), SpecParseError> {
    match tok_at(t, p) {
        Some(SpecToken::IntNum(v)) => Ok((SpecLiteral::IntNum(v), p + 1)),
        Some(SpecToken::UintNum(v)) => Ok((SpecLiteral::UintNum(v), p + 1)),
        _ => Err(sp_unexpected(t, p, end, seq![Expected::Lit])),
    }
}

/// Any relational operator token.
pub open spec fn sp_relop(t: Seq<(SpecToken, Span)>, p: int, end: usize) -> Result<(Relop, int), SpecParseError> {
    match tok_at(t, p) {
        Some(SpecToken::Op(Op::Lt)) => Ok((Relop::Lt, p + 1)),
        Some(SpecToken::Op(Op::Gt)) => Ok((Relop::Gt, p + 1)),
        Some(SpecToken::Op(Op::Le)) => Ok((Relop::Le, p + 1)),
        Some(SpecToken::Op(Op::Ge)) => Ok((Relop::Ge, p + 1)),
        Some(SpecToken::Op(Op::Eq)) => Ok((Relop::Eq, p + 1)),
        Some(SpecToken::Op(Op::Ne)) => Ok((Relop::Ne, p + 1)),
        _ => Err(sp_unexpected(t, p, end, sp_relop_set())),
    }
}

/// `Parameter := Type Identifier`.
pub open spec fn sp_parameter(t: Seq<(SpecToken, Span)>, p: int, end: usize) -> Result<(SpecParameter, int), SpecParseError> {
    match sp_type(t, p, end) {
        Err(e) => Err(e),
        Ok((k, p1)) => match sp_ident(t, p1, end) {
            Err(e) => Err(e),
            Ok((n, p2)) => Ok((SpecParameter { kind: k, name: n }, p2)),
        },
    }
}

/// `Variable := Type Identifier ';'`.
pub open spec fn sp_variable(t: Seq<(SpecToken, Span)>, p: int, end: usize) -> Result<(SpecVariable, int), SpecParseError> {
    match sp_type(t, p, end) {
        Err(e) => Err(e),
        Ok((k, p1)) => match sp_ident(t, p1, end) {
            Err(e) => Err(e),
            Ok((n, p2)) => if tok_at(t, p2) == Some(SpecToken::Ctrl(Ctrl::Semicolon)) {
                Ok((SpecVariable { kind: k, name: n }, p2 + 1))
            } else {
                Err(sp_unexpected(t, p2, end, seq![Expected::Ctrl(Ctrl::Semicolon)]))
            },
        },
    }
}

/// The additive operator named by a token, if any.
pub open spec fn sp_sum_op(tok: SpecToken) -> Option<Arop> {
    match tok {
        SpecToken::Op(Op::Add) => Some(Arop::Add),
        SpecToken::Op(Op::Sub) => Some(Arop::Sub),
        _ => None,
    }
}

/// The multiplicative operator named by a token, if any.
pub open spec fn sp_product_op(tok: SpecToken) -> Option<Arop> {
    match tok {
        SpecToken::Op(Op::Mul) => Some(Arop::Mul),
        SpecToken::Op(Op::Div) => Some(Arop::Div),
        _ => None,
    }
}

/// `Exp := Sum`.
pub open spec fn sp_exp(t: Seq<(SpecToken, Span)>, p: int, end: usize) -> Result<(SpecExp, int), SpecParseError>
    decreases t.len() - p, 5int,
{
    sp_sum(t, p, end)
}

/// `Sum := Product (('+'|'-') Product)*`, folded to the left.
pub open spec fn sp_sum(t: Seq<(SpecToken, Span)>, p: int, end: usize) -> Result<(SpecExp, int), SpecParseError>
    decreases t.len() - p, 4int,
{
    match sp_product(t, p, end) {
        Err(e) => Err(e),
        Ok((e0, p1)) => if p <= p1 && p1 <= t.len() {
            sp_sum_tail(t, p1, end, e0)
        } else {
            Err(sp_stuck(t, p1, end))
        },
    }
}

/// The `(('+'|'-') Product)*` tail of a sum, folding onto `acc` from the
/// left: each step wraps the accumulated expression as the left child.
pub open spec fn sp_sum_tail(t: Seq<(SpecToken, Span)>, p: int, end: usize, acc: SpecExp) -> Result<(SpecExp, int), SpecParseError>
    decreases t.len() - p, 3int,
{
    if !(0 <= p && p < t.len()) {
        Ok((acc, p))
    } else {
        match sp_sum_op(t[p].0) {
            None => Ok((acc, p)),
            Some(aop) => match sp_product(t, p + 1, end) {
                Err(e) => Err(e),
                Ok((rhs, p2)) => if p < p2 && p2 <= t.len() {
                    sp_sum_tail(t, p2, end, SpecExp::Binary(Box::new(acc), aop, Box::new(rhs)))
                } else {
                    Err(sp_stuck(t, p2, end))
                },
            },
        }
    }
}

/// `Product := Atom (('*'|'/') Atom)*`, folded to the left.
pub open spec fn sp_product(t: Seq<(SpecToken, Span)>, p: int, end: usize) -> Result<(SpecExp, int), SpecParseError>
    decreases t.len() - p, 2int,
{
    match sp_atom(t, p, end) {
        Err(e) => Err(e),
        Ok((e0, p1)) => if p <= p1 && p1 <= t.len() {
            sp_product_tail(t, p1, end, e0)
        } else {
            Err(sp_stuck(t, p1, end))
        },
    }
}

/// The `(('*'|'/') Atom)*` tail of a product, folding onto `acc` from the
/// left.
pub open spec fn sp_product_tail(t: Seq<(SpecToken, Span)>, p: int, end: usize, acc: SpecExp) -> Result<(SpecExp, int), SpecParseError>
    decreases t.len() - p, 1int,
{
    if !(0 <= p && p < t.len()) {
        Ok((acc, p))
    } else {
        match sp_product_op(t[p].0) {
            None => Ok((acc, p)),
            Some(aop) => match sp_atom(t, p + 1, end) {
                Err(e) => Err(e),
                Ok((rhs, p2)) => if p < p2 && p2 <= t.len() {
                    sp_product_tail(t, p2, end, SpecExp::Binary(Box::new(acc), aop, Box::new(rhs)))
                } else {
                    Err(sp_stuck(t, p2, end))
                },
            },
        }
    }
}

/// `Atom := FunctionCall | Identifier | Literal | '(' Exp ')'`. An
/// identifier immediately followed by `(` is always a call; a bare
/// identifier is the fallback when no `(` follows.
pub open spec fn sp_atom(t: Seq<(SpecToken, Span)>, p: int, end: usize) -> Result<(SpecExp, int), SpecParseError>
    decreases t.len() - p, 0int,
{
    match tok_at(t, p) {
        Some(SpecToken::Ident(name)) => {
            if tok_at(t, p + 1) == Some(SpecToken::Ctrl(Ctrl::LParen)) {
                if tok_at(t, p + 2) == Some(SpecToken::Ctrl(Ctrl::RParen)) {
                    Ok((SpecExp::FunctionCall { name, arg: None }, p + 3))
                } else {
                    match sp_exp(t, p + 2, end) {
                        Err(e) => Err(e),
                        Ok((a, p3)) => if tok_at(t, p3) == Some(SpecToken::Ctrl(Ctrl::RParen)) {
                            Ok((SpecExp::FunctionCall { name, arg: Some(Box::new(a)) }, p3 + 1))
                        } else {
                            Err(sp_unexpected(t, p3, end, seq![Expected::Ctrl(Ctrl::RParen)]))
                        },
                    }
                }
            } else {
                Ok((SpecExp::Identifier(name), p + 1))
            }
        },
        Some(SpecToken::IntNum(v)) => Ok((SpecExp::Literal(SpecLiteral::IntNum(v)), p + 1)),
        Some(SpecToken::UintNum(v)) => Ok((SpecExp::Literal(SpecLiteral::UintNum(v)), p + 1)),
        Some(SpecToken::Ctrl(Ctrl::LParen)) => match sp_exp(t, p + 1, end) {
            Err(e) => Err(e),
            Ok((e0, p1)) => if tok_at(t, p1) == Some(SpecToken::Ctrl(Ctrl::RParen)) {
                Ok((e0, p1 + 1))
            } else {
                Err(sp_unexpected(t, p1, end, seq![Expected::Ctrl(Ctrl::RParen)]))
            },
        },
        _ => Err(sp_unexpected(t, p, end, sp_atom_set())),
    }
}

/// `RelExp := Exp Relop Exp`: exactly one comparison, no chaining.
pub open spec fn sp_relexp(t: Seq<(SpecToken, Span)>, p: int, end: usize) -> Result<(SpecRelExp, int), SpecParseError> {
    match sp_exp(t, p, end) {
        Err(e) => Err(e),
        Ok((lhs, p1)) => match sp_relop(t, p1, end) {
            Err(e) => Err(e),
            Ok((op, p2)) => match sp_exp(t, p2, end) {
                Err(e) => Err(e),
                Ok((rhs, p3)) => Ok((SpecRelExp { lhs, operator: op, rhs }, p3)),
            },
        },
    }
}

/// Whether a token may start a statement.
pub open spec fn sp_is_stmt_start(o: Option<SpecToken>) -> bool {
    match o {
        Some(SpecToken::Ident(_)) => true,
        Some(SpecToken::Keyword(Keyword::If)) => true,
        Some(SpecToken::Keyword(Keyword::Return)) => true,
        Some(SpecToken::Ctrl(Ctrl::LBracket)) => true,
        _ => false,
    }
}

/// `Statement := Assignment | If | Return | Compound`, chosen by the first
/// token: an identifier starts an assignment, `if` an if-statement, `return`
/// a return, `{` a compound.
pub open spec fn sp_statement(t: Seq<(SpecToken, Span)>, p: int, end: usize) -> Result<(SpecStatement, int), SpecParseError>
    decreases t.len() - p, 0int,
{
    match tok_at(t, p) {
        Some(SpecToken::Ident(name)) => {
            if tok_at(t, p + 1) == Some(SpecToken::Op(Op::Assign)) {
                match sp_exp(t, p + 2, end) {
                    Err(e) => Err(e),
                    Ok((rhs, p1)) => if tok_at(t, p1) == Some(SpecToken::Ctrl(Ctrl::Semicolon)) {
                        Ok((SpecStatement::Assignment { lhs: name, rhs }, p1 + 1))
                    } else {
                        Err(sp_unexpected(t, p1, end, seq![Expected::Ctrl(Ctrl::Semicolon)]))
                    },
                }
            } else {
                Err(sp_unexpected(t, p + 1, end, seq![Expected::Op(Op::Assign)]))
            }
        },
        Some(SpecToken::Keyword(Keyword::If)) => {
            if tok_at(t, p + 1) == Some(SpecToken::Ctrl(Ctrl::LParen)) {
                match sp_relexp(t, p + 2, end) {
                    Err(e) => Err(e),
                    Ok((cond, p1)) => if tok_at(t, p1) == Some(SpecToken::Ctrl(Ctrl::RParen)) {
                        if p < p1 + 1 && p1 + 1 <= t.len() {
                            match sp_statement(t, p1 + 1, end) {
                                Err(e) => Err(e),
                                Ok((thenp, p2)) => if tok_at(t, p2) == Some(SpecToken::Keyword(Keyword::Else)) {
                                    if p < p2 + 1 && p2 + 1 <= t.len() {
                                        match sp_statement(t, p2 + 1, end) {
                                            Err(e) => Err(e),
                                            Ok((elsep, p3)) => Ok((
                                                SpecStatement::If {
                                                    condition: cond,
                                                    if_part: Box::new(thenp),
                                                    else_part: Some(Box::new(elsep)),
                                                },
                                                p3,
                                            )),
                                        }
                                    } else {
                                        Err(sp_stuck(t, p2, end))
                                    }
                                } else {
                                    Ok((
                                        SpecStatement::If {
                                            condition: cond,
                                            if_part: Box::new(thenp),
                                            else_part: None,
                                        },
                                        p2,
                                    ))
                                },
                            }
                        } else {
                            Err(sp_stuck(t, p1, end))
                        }
                    } else {
                        Err(sp_unexpected(t, p1, end, seq![Expected::Ctrl(Ctrl::RParen)]))
                    },
                }
            } else {
                Err(sp_unexpected(t, p + 1, end, seq![Expected::Ctrl(Ctrl::LParen)]))
            }
        },
        Some(SpecToken::Keyword(Keyword::Return)) => {
            match sp_exp(t, p + 1, end) {
                Err(e) => Err(e),
                Ok((value, p1)) => if tok_at(t, p1) == Some(SpecToken::Ctrl(Ctrl::Semicolon)) {
                    Ok((SpecStatement::Return { value }, p1 + 1))
                } else {
                    Err(sp_unexpected(t, p1, end, seq![Expected::Ctrl(Ctrl::Semicolon)]))
                },
            }
        },
        Some(SpecToken::Ctrl(Ctrl::LBracket)) => {
            match sp_stmt_list(t, p + 1, end) {
                Err(e) => Err(e),
                Ok((ss, p1)) => if tok_at(t, p1) == Some(SpecToken::Ctrl(Ctrl::RBracket)) {
                    Ok((SpecStatement::Compound(ss), p1 + 1))
                } else {
                    Err(sp_unexpected(t, p1, end, sp_stmt_close_set()))
                },
            }
        },
        _ => Err(sp_unexpected(t, p, end, sp_stmt_start_set())),
    }
}

/// `Statement*`: as many statements as statement-starting tokens allow.
pub open spec fn sp_stmt_list(t: Seq<(SpecToken, Span)>, p: int, end: usize) -> Result<(Seq<SpecStatement>, int), SpecParseError>
    decreases t.len() - p, 1int,
{
    if sp_is_stmt_start(tok_at(t, p)) {
        match sp_statement(t, p, end) {
            Err(e) => Err(e),
            Ok((st, p1)) => if p < p1 && p1 <= t.len() {
                match sp_stmt_list(t, p1, end) {
                    Err(e) => Err(e),
                    Ok((rest, p2)) => Ok((seq![st] + rest, p2)),
                }
            } else {
                Err(sp_stuck(t, p, end))
            },
        }
    } else {
        Ok((Seq::empty(), p))
    }
}

/// `Variable*`: declarations run as long as a type name follows.
pub open spec fn sp_var_list(t: Seq<(SpecToken, Span)>, p: int, end: usize) -> Result<(Seq<SpecVariable>, int), SpecParseError>
    decreases t.len() - p,
{
    match tok_at(t, p) {
        Some(SpecToken::Type(_)) => match sp_variable(t, p, end) {
            Err(e) => Err(e),
            Ok((v, p1)) => if p < p1 && p1 <= t.len() {
                match sp_var_list(t, p1, end) {
                    Err(e) => Err(e),
                    Ok((rest, p2)) => Ok((seq![v] + rest, p2)),
                }
            } else {
                Err(sp_stuck(t, p, end))
            },
        },
        _ => Ok((Seq::empty(), p)),
    }
}

/// `Function := Type Identifier '(' Parameter? ')' '{' Variable* Statement* '}'`.
/// The parameter is present exactly when a type name follows the `(`.
pub open spec fn sp_function(t: Seq<(SpecToken, Span)>, p: int, end: usize) -> Result<(SpecFunction, int), SpecParseError> {
    match sp_type(t, p, end) {
        Err(e) => Err(e),
        Ok((rt, p1)) => match sp_ident(t, p1, end) {
            Err(e) => Err(e),
            Ok((name, p2)) => if tok_at(t, p2) == Some(SpecToken::Ctrl(Ctrl::LParen)) {
                let par_res: Result<(Option<SpecParameter>, int), SpecParseError> = match tok_at(t, p2 + 1) {
                    Some(SpecToken::Type(_)) => match sp_parameter(t, p2 + 1, end) {
                        Err(e) => Err(e),
                        Ok((pa, q)) => Ok((Some(pa), q)),
                    },
                    Some(SpecToken::Ctrl(Ctrl::RParen)) => Ok((None, p2 + 1)),
                    _ => Err(sp_unexpected(t, p2 + 1, end, sp_param_set())),
                };
                match par_res {
                    Err(e) => Err(e),
                    Ok((param, p4)) => if tok_at(t, p4) == Some(SpecToken::Ctrl(Ctrl::RParen)) {
                        if tok_at(t, p4 + 1) == Some(SpecToken::Ctrl(Ctrl::LBracket)) {
                            match sp_var_list(t, p4 + 2, end) {
                                Err(e) => Err(e),
                                Ok((vars, p5)) => match sp_stmt_list(t, p5, end) {
                                    Err(e) => Err(e),
                                    Ok((stmts, p6)) => if tok_at(t, p6) == Some(SpecToken::Ctrl(Ctrl::RBracket)) {
                                        Ok((
                                            SpecFunction {
                                                return_type: rt,
                                                name,
                                                parameter: param,
                                                variables: vars,
                                                statements: stmts,
                                            },
                                            p6 + 1,
                                        ))
                                    } else {
                                        Err(sp_unexpected(t, p6, end, sp_stmt_close_set()))
                                    },
                                },
                            }
                        } else {
                            Err(sp_unexpected(t, p4 + 1, end, seq![Expected::Ctrl(Ctrl::LBracket)]))
                        }
                    } else {
                        Err(sp_unexpected(t, p4, end, seq![Expected::Ctrl(Ctrl::RParen)]))
                    },
                }
            } else {
                Err(sp_unexpected(t, p2, end, seq![Expected::Ctrl(Ctrl::LParen)]))
            },
        },
    }
}

/// The `Function*` part after the first function, ending exactly at the end
/// of input: anything else that is not a type name is an error expecting
/// another function or the end.
pub open spec fn sp_program_rest(t: Seq<(SpecToken, Span)>, p: int, end: usize) -> Result<(Seq<SpecFunction>, int), SpecParseError>
    decreases t.len() - p,
{
    if p == t.len() {
        Ok((Seq::empty(), p))
    } else {
        match tok_at(t, p) {
            Some(SpecToken::Type(_)) => match sp_function(t, p, end) {
                Err(e) => Err(e),
                Ok((f, p1)) => if p < p1 && p1 <= t.len() {
                    match sp_program_rest(t, p1, end) {
                        Err(e) => Err(e),
                        Ok((rest, p2)) => Ok((seq![f] + rest, p2)),
                    }
                } else {
                    Err(sp_stuck(t, p, end))
                },
            },
            _ => Err(sp_unexpected(t, p, end, sp_more_fns_set())),
        }
    }
}

/// `Program := Function+ end-of-input`: at least one function, and the
/// tokens must be exhausted.
pub open spec fn sp_program(t: Seq<(SpecToken, Span)>, end: usize) -> Result<SpecProgram, SpecParseError> {
    match sp_function(t, 0, end) {
        Err(e) => Err(e),
        Ok((f, p1)) => match sp_program_rest(t, p1, end) {
            Err(e) => Err(e),
            Ok((rest, _p2)) => Ok(SpecProgram { functions: seq![f] + rest }),
        },
    }
}

// ---------------------------------------------------------------------------
// The executable parser. Each function mirrors its spec-level rule and is
// proved to return exactly what the rule says.
// ---------------------------------------------------------------------------

/// Builds the parse error that `sp_unexpected` names for this position.
fn err_at(toks: &Vec<(Token, Span)>, pos: usize, end: usize, expected: Vec<Expected>) -> (e: ParseError)
    requires
        end < usize::MAX,
    ensures
        e@ == sp_unexpected(toks_view(toks@), pos as int, end, expected@),
{
    let span = if pos < toks.len() {
        toks[pos].1
    } else {
        Span { start: end, end: end + 1 }
    };
    let found = if pos < toks.len() {
        Some(toks[pos].0.dup())
    } else {
        None
    };
    proof {
        if (pos as int) < toks@.len() {
            assert(toks_view(toks@)[pos as int] == (toks@[pos as int].0@, toks@[pos as int].1));
        }
    }
    ParseError { span, reason: ParseReason::UnexpectedToken { expected, found } }
}

fn one_exp(e: Expected) -> (v: Vec<Expected>)
    ensures
        v@ == seq![e],
{
    let mut v: Vec<Expected> = Vec::new();
    v.push(e);
    proof {
        assert(v@ =~= seq![e]);
    }
    v
}

fn type_set_vec() -> (v: Vec<Expected>)
    ensures
        v@ == sp_type_set(),
{
    let mut v: Vec<Expected> = Vec::new();
    v.push(Expected::Ty(crate::lexer::Type::Int));
    v.push(Expected::Ty(crate::lexer::Type::Unsigned));
    proof {
        assert(v@ =~= sp_type_set());
    }
    v
}

fn param_set_vec() -> (v: Vec<Expected>)
    ensures
        v@ == sp_param_set(),
{
    let mut v = type_set_vec();
    v.push(Expected::Ctrl(Ctrl::RParen));
    proof {
        assert(v@ =~= sp_param_set());
    }
    v
}

fn more_fns_set_vec() -> (v: Vec<Expected>)
    ensures
        v@ == sp_more_fns_set(),
{
    let mut v = type_set_vec();
    v.push(Expected::End);
    proof {
        assert(v@ =~= sp_more_fns_set());
    }
    v
}

fn stmt_start_set_vec() -> (v: Vec<Expected>)
    ensures
        v@ == sp_stmt_start_set(),
{
    let mut v: Vec<Expected> = Vec::new();
    v.push(Expected::Ident);
    v.push(Expected::Kw(Keyword::If));
    v.push(Expected::Kw(Keyword::Return));
    v.push(Expected::Ctrl(Ctrl::LBracket));
    proof {
        assert(v@ =~= sp_stmt_start_set());
    }
    v
}

fn stmt_close_set_vec() -> (v: Vec<Expected>)
    ensures
        v@ == sp_stmt_close_set(),
{
    let mut v = stmt_start_set_vec();
    v.push(Expected::Ctrl(Ctrl::RBracket));
    proof {
        assert(v@ =~= sp_stmt_close_set());
    }
    v
}

fn atom_set_vec() -> (v: Vec<Expected>)
    ensures
        v@ == sp_atom_set(),
{
    let mut v: Vec<Expected> = Vec::new();
    v.push(Expected::Ident);
    v.push(Expected::Lit);
    v.push(Expected::Ctrl(Ctrl::LParen));
    proof {
        assert(v@ =~= sp_atom_set());
    }
    v
}

fn relop_set_vec() -> (v: Vec<Expected>)
    ensures
        v@ == sp_relop_set(),
{
    let mut v: Vec<Expected> = Vec::new();
    v.push(Expected::Op(Op::Lt));
    v.push(Expected::Op(Op::Gt));
    v.push(Expected::Op(Op::Le));
    v.push(Expected::Op(Op::Ge));
    v.push(Expected::Op(Op::Eq));
    v.push(Expected::Op(Op::Ne));
    proof {
        assert(v@ =~= sp_relop_set());
    }
    v
}

/// Whether the token at `pos` is exactly the punctuation `c`.
fn peek_ctrl(toks: &Vec<(Token, Span)>, pos: usize, c: Ctrl) -> (b: bool)
    ensures
        b == (tok_at(toks_view(toks@), pos as int) == Some(SpecToken::Ctrl(c))),
        b ==> pos < toks@.len() && toks@.len() <= usize::MAX,
{
    if pos < toks.len() {
        proof {
            assert(toks_view(toks@)[pos as int] == (toks@[pos as int].0@, toks@[pos as int].1));
        }
        match &toks[pos].0 {
            Token::Ctrl(c2) => *c2 == c,
            _ => false,
        }
    } else {
        false
    }
}

/// Whether the token at `pos` is exactly the operator `o`.
fn peek_op(toks: &Vec<(Token, Span)>, pos: usize, o: Op) -> (b: bool)
    ensures
        b == (tok_at(toks_view(toks@), pos as int) == Some(SpecToken::Op(o))),
        b ==> pos < toks@.len() && toks@.len() <= usize::MAX,
{
    if pos < toks.len() {
        proof {
            assert(toks_view(toks@)[pos as int] == (toks@[pos as int].0@, toks@[pos as int].1));
        }
        match &toks[pos].0 {
            Token::Op(o2) => *o2 == o,
            _ => false,
        }
    } else {
        false
    }
}

/// Whether the token at `pos` is exactly the keyword `k`.
fn peek_kw(toks: &Vec<(Token, Span)>, pos: usize, k: Keyword) -> (b: bool)
    ensures
        b == (tok_at(toks_view(toks@), pos as int) == Some(SpecToken::Keyword(k))),
        b ==> pos < toks@.len() && toks@.len() <= usize::MAX,
{
    if pos < toks.len() {
        proof {
            assert(toks_view(toks@)[pos as int] == (toks@[pos as int].0@, toks@[pos as int].1));
        }
        match &toks[pos].0 {
            Token::Keyword(k2) => *k2 == k,
            _ => false,
        }
    } else {
        false
    }
}

/// Whether the token at `pos` is a type name.
fn peek_type(toks: &Vec<(Token, Span)>, pos: usize) -> (b: bool)
    ensures
        b == (tok_at(toks_view(toks@), pos as int) matches Some(SpecToken::Type(_))),
        b ==> pos < toks@.len() && toks@.len() <= usize::MAX,
{
    if pos < toks.len() {
        proof {
            assert(toks_view(toks@)[pos as int] == (toks@[pos as int].0@, toks@[pos as int].1));
        }
        match &toks[pos].0 {
            Token::Type(_) => true,
            _ => false,
        }
    } else {
        false
    }
}

/// Whether the token at `pos` may start a statement.
fn is_stmt_start(toks: &Vec<(Token, Span)>, pos: usize) -> (b: bool)
    ensures
        b == sp_is_stmt_start(tok_at(toks_view(toks@), pos as int)),
{
    if pos < toks.len() {
        proof {
            assert(toks_view(toks@)[pos as int] == (toks@[pos as int].0@, toks@[pos as int].1));
        }
        match &toks[pos].0 {
            Token::Ident(_) => true,
            Token::Keyword(Keyword::If) => true,
            Token::Keyword(Keyword::Return) => true,
            Token::Ctrl(Ctrl::LBracket) => true,
            _ => false,
        }
    } else {
        false
    }
}

impl Type {
    /// Parses a type name.
    pub fn parser(toks: &Vec<(Token, Span)>, pos: usize, end: usize) -> (r: Result<(Type, usize), ParseError>)
        requires
            pos <= toks@.len(),
            end < usize::MAX,
        ensures
            match r {
                Ok((ty, p)) => sp_type(toks_view(toks@), pos as int, end)
                    == Ok::<(Type, int), SpecParseError>((ty, p as int)) && pos < p && p <= toks@.len(),
                Err(e) => sp_type(toks_view(toks@), pos as int, end)
                    == Err::<(Type, int), SpecParseError>(e@),
            },
    {
        if pos < toks.len() {
            proof {
                assert(toks_view(toks@)[pos as int] == (toks@[pos as int].0@, toks@[pos as int].1));
            }
            match &toks[pos].0 {
                Token::Type(crate::lexer::Type::Int) => Ok((Type::Int, pos + 1)),
                Token::Type(crate::lexer::Type::Unsigned) => Ok((Type::Unsigned, pos + 1)),
                _ => Err(err_at(toks, pos, end, type_set_vec())),
            }
        } else {
            Err(err_at(toks, pos, end, type_set_vec()))
        }
    }
}

impl Identifier {
    /// Parses an identifier.
    pub fn parser(toks: &Vec<(Token, Span)>, pos: usize, end: usize) -> (r: Result<(Identifier, usize), ParseError>)
        requires
            pos <= toks@.len(),
            end < usize::MAX,
        ensures
            match r {
                Ok((id, p)) => sp_ident(toks_view(toks@), pos as int, end)
                    == Ok::<(Seq<char>, int), SpecParseError>((id@, p as int)) && pos < p && p <= toks@.len(),
                Err(e) => sp_ident(toks_view(toks@), pos as int, end)
                    == Err::<(Seq<char>, int), SpecParseError>(e@),
            },
    {
        if pos < toks.len() {
            proof {
                assert(toks_view(toks@)[pos as int] == (toks@[pos as int].0@, toks@[pos as int].1));
            }
            match &toks[pos].0 {
                Token::Ident(s) => Ok((Identifier(s.clone()), pos + 1)),
                _ => Err(err_at(toks, pos, end, one_exp(Expected::Ident))),
            }
        } else {
            Err(err_at(toks, pos, end, one_exp(Expected::Ident)))
        }
    }
}

impl Literal {
    /// Parses an integer literal, signed or unsigned.
    pub fn parser(toks: &Vec<(Token, Span)>, pos: usize, end: usize) -> (r: Result<(Literal, usize), ParseError>)
        requires
            pos <= toks@.len(),
            end < usize::MAX,
        ensures
            match r {
                Ok((l, p)) => sp_literal(toks_view(toks@), pos as int, end)
                    == Ok::<(SpecLiteral, int), SpecParseError>((l@, p as int)) && pos < p && p <= toks@.len(),
                Err(e) => sp_literal(toks_view(toks@), pos as int, end)
                    == Err::<(SpecLiteral, int), SpecParseError>(e@),
            },
    {
        if pos < toks.len() {
            proof {
                assert(toks_view(toks@)[pos as int] == (toks@[pos as int].0@, toks@[pos as int].1));
            }
            match &toks[pos].0 {
                Token::IntNum(v) => Ok((Literal::IntNum(*v), pos + 1)),
                Token::UintNum(v) => Ok((Literal::UintNum(*v), pos + 1)),
                _ => Err(err_at(toks, pos, end, one_exp(Expected::Lit))),
            }
        } else {
            Err(err_at(toks, pos, end, one_exp(Expected::Lit)))
        }
    }
}

impl Relop {
    /// Parses a relational operator.
    pub fn parser(toks: &Vec<(Token, Span)>, pos: usize, end: usize) -> (r: Result<(Relop, usize), ParseError>)
        requires
            pos <= toks@.len(),
            end < usize::MAX,
        ensures
            match r {
                Ok((op, p)) => sp_relop(toks_view(toks@), pos as int, end)
                    == Ok::<(Relop, int), SpecParseError>((op, p as int)) && pos < p && p <= toks@.len(),
                Err(e) => sp_relop(toks_view(toks@), pos as int, end)
                    == Err::<(Relop, int), SpecParseError>(e@),
            },
    {
        if pos < toks.len() {
            proof {
                assert(toks_view(toks@)[pos as int] == (toks@[pos as int].0@, toks@[pos as int].1));
            }
            match &toks[pos].0 {
                Token::Op(Op::Lt) => Ok((Relop::Lt, pos + 1)),
                Token::Op(Op::Gt) => Ok((Relop::Gt, pos + 1)),
                Token::Op(Op::Le) => Ok((Relop::Le, pos + 1)),
                Token::Op(Op::Ge) => Ok((Relop::Ge, pos + 1)),
                Token::Op(Op::Eq) => Ok((Relop::Eq, pos + 1)),
                Token::Op(Op::Ne) => Ok((Relop::Ne, pos + 1)),
                _ => Err(err_at(toks, pos, end, relop_set_vec())),
            }
        } else {
            Err(err_at(toks, pos, end, relop_set_vec()))
        }
    }
}

impl Parameter {
    /// Parses the single formal parameter: a type then a name.
    pub fn parser(toks: &Vec<(Token, Span)>, pos: usize, end: usize) -> (r: Result<(Parameter, usize), ParseError>)
        requires
            pos <= toks@.len(),
            end < usize::MAX,
        ensures
            match r {
                Ok((pa, p)) => sp_parameter(toks_view(toks@), pos as int, end)
                    == Ok::<(SpecParameter, int), SpecParseError>((pa@, p as int)) && pos < p && p <= toks@.len(),
                Err(e) => sp_parameter(toks_view(toks@), pos as int, end)
                    == Err::<(SpecParameter, int), SpecParseError>(e@),
            },
    {
        match Type::parser(toks, pos, end) {
            Err(e) => Err(e),
            Ok((k, p1)) => match Identifier::parser(toks, p1, end) {
                Err(e) => Err(e),
                Ok((id, p2)) => Ok((Parameter { kind: k, identifier: id }, p2)),
            },
        }
    }
}

impl Variable {
    /// Parses a local variable declaration: a type, a name, a semicolon.
    pub fn parser(toks: &Vec<(Token, Span)>, pos: usize, end: usize) -> (r: Result<(Variable, usize), ParseError>)
        requires
            pos <= toks@.len(),
            end < usize::MAX,
        ensures
            match r {
                Ok((va, p)) => sp_variable(toks_view(toks@), pos as int, end)
                    == Ok::<(SpecVariable, int), SpecParseError>((va@, p as int)) && pos < p && p <= toks@.len(),
                Err(e) => sp_variable(toks_view(toks@), pos as int, end)
                    == Err::<(SpecVariable, int), SpecParseError>(e@),
            },
    {
        match Type::parser(toks, pos, end) {
            Err(e) => Err(e),
            Ok((k, p1)) => match Identifier::parser(toks, p1, end) {
                Err(e) => Err(e),
                Ok((id, p2)) => if peek_ctrl(toks, p2, Ctrl::Semicolon) {
                    Ok((Variable { kind: k, identifier: id }, p2 + 1))
                } else {
                    Err(err_at(toks, p2, end, one_exp(Expected::Ctrl(Ctrl::Semicolon))))
                },
            },
        }
    }
}

impl Exp {
    /// Parses an expression (a sum of products).
    pub fn parser(toks: &Vec<(Token, Span)>, pos: usize, end: usize) -> (r: Result<(Exp, usize), ParseError>)
        requires
            pos <= toks@.len(),
            end < usize::MAX,
        ensures
            match r {
                Ok((e, p)) => sp_exp(toks_view(toks@), pos as int, end)
                    == Ok::<(SpecExp, int), SpecParseError>((e@, p as int)) && pos < p && p <= toks@.len(),
                Err(er) => sp_exp(toks_view(toks@), pos as int, end)
                    == Err::<(SpecExp, int), SpecParseError>(er@),
            },
        decreases toks@.len() - pos, 5int,
    {
        parse_sum(toks, pos, end)
    }
}

fn parse_sum(toks: &Vec<(Token, Span)>, pos: usize, end: usize) -> (r: Result<(Exp, usize), ParseError>)
    requires
        pos <= toks@.len(),
        end < usize::MAX,
    ensures
        match r {
            Ok((e, p)) => sp_sum(toks_view(toks@), pos as int, end)
                == Ok::<(SpecExp, int), SpecParseError>((e@, p as int)) && pos < p && p <= toks@.len(),
            Err(er) => sp_sum(toks_view(toks@), pos as int, end)
                == Err::<(SpecExp, int), SpecParseError>(er@),
        },
    decreases toks@.len() - pos, 4int,
{
    match parse_product(toks, pos, end) {
        Err(e) => Err(e),
        Ok((e0, p1)) => parse_sum_tail(toks, p1, end, e0),
    }
}

fn parse_sum_tail(toks: &Vec<(Token, Span)>, pos: usize, end: usize, acc: Exp) -> (r: Result<(Exp, usize), ParseError>)
    requires
        pos <= toks@.len(),
        end < usize::MAX,
    ensures
        match r {
            Ok((e, p)) => sp_sum_tail(toks_view(toks@), pos as int, end, acc@)
                == Ok::<(SpecExp, int), SpecParseError>((e@, p as int)) && pos <= p && p <= toks@.len(),
            Err(er) => sp_sum_tail(toks_view(toks@), pos as int, end, acc@)
                == Err::<(SpecExp, int), SpecParseError>(er@),
        },
    decreases toks@.len() - pos, 3int,
{
    if pos >= toks.len() {
        Ok((acc, pos))
    } else {
        proof {
            assert(toks_view(toks@)[pos as int] == (toks@[pos as int].0@, toks@[pos as int].1));
        }
        let aop_opt: Option<Arop> = match &toks[pos].0 {
            Token::Op(Op::Add) => Some(Arop::Add),
            Token::Op(Op::Sub) => Some(Arop::Sub),
            _ => None,
        };
        match aop_opt {
            None => Ok((acc, pos)),
            Some(aop) => match parse_product(toks, pos + 1, end) {
                Err(e) => Err(e),
                Ok((rhs, p2)) => parse_sum_tail(toks, p2, end, Exp::Binary(Box::new(acc), aop, Box::new(rhs))),
            },
        }
    }
}

fn parse_product(toks: &Vec<(Token, Span)>, pos: usize, end: usize) -> (r: Result<(Exp, usize), ParseError>)
    requires
        pos <= toks@.len(),
        end < usize::MAX,
    ensures
        match r {
            Ok((e, p)) => sp_product(toks_view(toks@), pos as int, end)
                == Ok::<(SpecExp, int), SpecParseError>((e@, p as int)) && pos < p && p <= toks@.len(),
            Err(er) => sp_product(toks_view(toks@), pos as int, end)
                == Err::<(SpecExp, int), SpecParseError>(er@),
        },
    decreases toks@.len() - pos, 2int,
{
    match parse_atom(toks, pos, end) {
        Err(e) => Err(e),
        Ok((e0, p1)) => parse_product_tail(toks, p1, end, e0),
    }
}

fn parse_product_tail(toks: &Vec<(Token, Span)>, pos: usize, end: usize, acc: Exp) -> (r: Result<(Exp, usize), ParseError>)
    requires
        pos <= toks@.len(),
        end < usize::MAX,
    ensures
        match r {
            Ok((e, p)) => sp_product_tail(toks_view(toks@), pos as int, end, acc@)
                == Ok::<(SpecExp, int), SpecParseError>((e@, p as int)) && pos <= p && p <= toks@.len(),
            Err(er) => sp_product_tail(toks_view(toks@), pos as int, end, acc@)
                == Err::<(SpecExp, int), SpecParseError>(er@),
        },
    decreases toks@.len() - pos, 1int,
{
    if pos >= toks.len() {
        Ok((acc, pos))
    } else {
        proof {
            assert(toks_view(toks@)[pos as int] == (toks@[pos as int].0@, toks@[pos as int].1));
        }
        let aop_opt: Option<Arop> = match &toks[pos].0 {
            Token::Op(Op::Mul) => Some(Arop::Mul),
            Token::Op(Op::Div) => Some(Arop::Div),
            _ => None,
        };
        match aop_opt {
            None => Ok((acc, pos)),
            Some(aop) => match parse_atom(toks, pos + 1, end) {
                Err(e) => Err(e),
                Ok((rhs, p2)) => parse_product_tail(toks, p2, end, Exp::Binary(Box::new(acc), aop, Box::new(rhs))),
            },
        }
    }
}

fn parse_atom(toks: &Vec<(Token, Span)>, pos: usize, end: usize) -> (r: Result<(Exp, usize), ParseError>)
    requires
        pos <= toks@.len(),
        end < usize::MAX,
    ensures
        match r {
            Ok((e, p)) => sp_atom(toks_view(toks@), pos as int, end)
                == Ok::<(SpecExp, int), SpecParseError>((e@, p as int)) && pos < p && p <= toks@.len(),
            Err(er) => sp_atom(toks_view(toks@), pos as int, end)
                == Err::<(SpecExp, int), SpecParseError>(er@),
        },
    decreases toks@.len() - pos, 0int,
{
    if pos >= toks.len() {
        Err(err_at(toks, pos, end, atom_set_vec()))
    } else {
        proof {
            assert(toks_view(toks@)[pos as int] == (toks@[pos as int].0@, toks@[pos as int].1));
        }
        match &toks[pos].0 {
            Token::Ident(s) => {
                if peek_ctrl(toks, pos + 1, Ctrl::LParen) {
                    if peek_ctrl(toks, pos + 2, Ctrl::RParen) {
                        Ok((Exp::FunctionCall { name: Identifier(s.clone()), arg: None }, pos + 3))
                    } else {
                        match Exp::parser(toks, pos + 2, end) {
                            Err(e) => Err(e),
                            Ok((a, p3)) => if peek_ctrl(toks, p3, Ctrl::RParen) {
                                Ok((Exp::FunctionCall { name: Identifier(s.clone()), arg: Some(Box::new(a)) }, p3 + 1))
                            } else {
                                Err(err_at(toks, p3, end, one_exp(Expected::Ctrl(Ctrl::RParen))))
                            },
                        }
                    }
                } else {
                    Ok((Exp::Identifier(Identifier(s.clone())), pos + 1))
                }
            },
            Token::IntNum(v) => Ok((Exp::Literal(Literal::IntNum(*v)), pos + 1)),
            Token::UintNum(v) => Ok((Exp::Literal(Literal::UintNum(*v)), pos + 1)),
            Token::Ctrl(Ctrl::LParen) => {
                match Exp::parser(toks, pos + 1, end) {
                    Err(e) => Err(e),
                    Ok((e0, p1)) => if peek_ctrl(toks, p1, Ctrl::RParen) {
                        Ok((e0, p1 + 1))
                    } else {
                        Err(err_at(toks, p1, end, one_exp(Expected::Ctrl(Ctrl::RParen))))
                    },
                }
            },
            _ => Err(err_at(toks, pos, end, atom_set_vec())),
        }
    }
}

impl RelExp {
    /// Parses a relational expression: expression, relational operator,
    /// expression.
    pub fn parser(toks: &Vec<(Token, Span)>, pos: usize, end: usize) -> (r: Result<(RelExp, usize), ParseError>)
        requires
            pos <= toks@.len(),
            end < usize::MAX,
        ensures
            match r {
                Ok((re, p)) => sp_relexp(toks_view(toks@), pos as int, end)
                    == Ok::<(SpecRelExp, int), SpecParseError>((re@, p as int)) && pos < p && p <= toks@.len(),
                Err(er) => sp_relexp(toks_view(toks@), pos as int, end)
                    == Err::<(SpecRelExp, int), SpecParseError>(er@),
            },
    {
        match Exp::parser(toks, pos, end) {
            Err(e) => Err(e),
            Ok((lhs, p1)) => match Relop::parser(toks, p1, end) {
                Err(e) => Err(e),
                Ok((op, p2)) => match Exp::parser(toks, p2, end) {
                    Err(e) => Err(e),
                    Ok((rhs, p3)) => Ok((RelExp { lhs, operator: op, rhs }, p3)),
                },
            },
        }
    }
}

impl Statement {
    /// Parses one statement, chosen by its first token.
    pub fn parser(toks: &Vec<(Token, Span)>, pos: usize, end: usize) -> (r: Result<(Statement, usize), ParseError>)
        requires
            pos <= toks@.len(),
            end < usize::MAX,
        ensures
            match r {
                Ok((st, p)) => sp_statement(toks_view(toks@), pos as int, end)
                    == Ok::<(SpecStatement, int), SpecParseError>((st@, p as int)) && pos < p && p <= toks@.len(),
                Err(er) => sp_statement(toks_view(toks@), pos as int, end)
                    == Err::<(SpecStatement, int), SpecParseError>(er@),
            },
        decreases toks@.len() - pos, 0int,
    {
        if pos >= toks.len() {
            Err(err_at(toks, pos, end, stmt_start_set_vec()))
        } else {
            proof {
                assert(toks_view(toks@)[pos as int] == (toks@[pos as int].0@, toks@[pos as int].1));
            }
            match &toks[pos].0 {
                Token::Ident(s) => {
                    if peek_op(toks, pos + 1, Op::Assign) {
                        match Exp::parser(toks, pos + 2, end) {
                            Err(e) => Err(e),
                            Ok((rhs, p1)) => if peek_ctrl(toks, p1, Ctrl::Semicolon) {
                                Ok((Statement::Assignment { lhs: Identifier(s.clone()), rhs }, p1 + 1))
                            } else {
                                Err(err_at(toks, p1, end, one_exp(Expected::Ctrl(Ctrl::Semicolon))))
                            },
                        }
                    } else {
                        Err(err_at(toks, pos + 1, end, one_exp(Expected::Op(Op::Assign))))
                    }
                },
                Token::Keyword(Keyword::If) => {
                    if peek_ctrl(toks, pos + 1, Ctrl::LParen) {
                        match RelExp::parser(toks, pos + 2, end) {
                            Err(e) => Err(e),
                            Ok((cond, p1)) => if peek_ctrl(toks, p1, Ctrl::RParen) {
                                match Statement::parser(toks, p1 + 1, end) {
                                    Err(e) => Err(e),
                                    Ok((thenp, p2)) => if peek_kw(toks, p2, Keyword::Else) {
                                        match Statement::parser(toks, p2 + 1, end) {
                                            Err(e) => Err(e),
                                            Ok((elsep, p3)) => Ok((
                                                Statement::If {
                                                    condition: cond,
                                                    if_part: Box::new(thenp),
                                                    else_part: Some(Box::new(elsep)),
                                                },
                                                p3,
                                            )),
                                        }
                                    } else {
                                        Ok((
                                            Statement::If {
                                                condition: cond,
                                                if_part: Box::new(thenp),
                                                else_part: None,
                                            },
                                            p2,
                                        ))
                                    },
                                }
                            } else {
                                Err(err_at(toks, p1, end, one_exp(Expected::Ctrl(Ctrl::RParen))))
                            },
                        }
                    } else {
                        Err(err_at(toks, pos + 1, end, one_exp(Expected::Ctrl(Ctrl::LParen))))
                    }
                },
                Token::Keyword(Keyword::Return) => {
                    match Exp::parser(toks, pos + 1, end) {
                        Err(e) => Err(e),
                        Ok((value, p1)) => if peek_ctrl(toks, p1, Ctrl::Semicolon) {
                            Ok((Statement::Return { value }, p1 + 1))
                        } else {
                            Err(err_at(toks, p1, end, one_exp(Expected::Ctrl(Ctrl::Semicolon))))
                        },
                    }
                },
                Token::Ctrl(Ctrl::LBracket) => {
                    match parse_stmt_list(toks, pos + 1, end) {
                        Err(e) => Err(e),
                        Ok((ss, p1)) => if peek_ctrl(toks, p1, Ctrl::RBracket) {
                            Ok((Statement::Compound(ss), p1 + 1))
                        } else {
                            Err(err_at(toks, p1, end, stmt_close_set_vec()))
                        },
                    }
                },
                _ => Err(err_at(toks, pos, end, stmt_start_set_vec())),
            }
        }
    }
}

fn parse_stmt_list(toks: &Vec<(Token, Span)>, pos: usize, end: usize) -> (r: Result<(Vec<Statement>, usize), ParseError>)
    requires
        pos <= toks@.len(),
        end < usize::MAX,
    ensures
        match r {
            Ok((ss, p)) => sp_stmt_list(toks_view(toks@), pos as int, end)
                == Ok::<(Seq<SpecStatement>, int), SpecParseError>((view_stmts(ss@), p as int)) && pos <= p && p <= toks@.len(),
            Err(er) => sp_stmt_list(toks_view(toks@), pos as int, end)
                == Err::<(Seq<SpecStatement>, int), SpecParseError>(er@),
        },
    decreases toks@.len() - pos, 1int,
{
    if is_stmt_start(toks, pos) {
        match Statement::parser(toks, pos, end) {
            Err(e) => Err(e),
            Ok((st, p1)) => match parse_stmt_list(toks, p1, end) {
                Err(e) => Err(e),
                Ok((mut rest, p2)) => {
                    proof {
                        lemma_view_stmts_cons(st, rest@);
                    }
                    rest.insert(0, st);
                    Ok((rest, p2))
                },
            },
        }
    } else {
        let empty: Vec<Statement> = Vec::new();
        proof {
            assert(empty@ =~= Seq::<Statement>::empty());
            assert(view_stmts(empty@) =~= Seq::<SpecStatement>::empty());
        }
        Ok((empty, pos))
    }
}

fn parse_var_list(toks: &Vec<(Token, Span)>, pos: usize, end: usize) -> (r: Result<(Vec<Variable>, usize), ParseError>)
    requires
        pos <= toks@.len(),
        end < usize::MAX,
    ensures
        match r {
            Ok((vs, p)) => sp_var_list(toks_view(toks@), pos as int, end)
                == Ok::<(Seq<SpecVariable>, int), SpecParseError>((view_vars(vs@), p as int)) && pos <= p && p <= toks@.len(),
            Err(er) => sp_var_list(toks_view(toks@), pos as int, end)
                == Err::<(Seq<SpecVariable>, int), SpecParseError>(er@),
        },
    decreases toks@.len() - pos,
{
    if peek_type(toks, pos) {
        match Variable::parser(toks, pos, end) {
            Err(e) => Err(e),
            Ok((v0, p1)) => match parse_var_list(toks, p1, end) {
                Err(e) => Err(e),
                Ok((mut rest, p2)) => {
                    proof {
                        lemma_view_vars_cons(v0, rest@);
                    }
                    rest.insert(0, v0);
                    Ok((rest, p2))
                },
            },
        }
    } else {
        let empty: Vec<Variable> = Vec::new();
        proof {
            assert(empty@ =~= Seq::<Variable>::empty());
            assert(view_vars(empty@) =~= Seq::<SpecVariable>::empty());
        }
        Ok((empty, pos))
    }
}

impl Function {
    /// Parses one function definition.
    pub fn parser(toks: &Vec<(Token, Span)>, pos: usize, end: usize) -> (r: Result<(Function, usize), ParseError>)
        requires
            pos <= toks@.len(),
            end < usize::MAX,
        ensures
            match r {
                Ok((f, p)) => sp_function(toks_view(toks@), pos as int, end)
                    == Ok::<(SpecFunction, int), SpecParseError>((f@, p as int)) && pos < p && p <= toks@.len(),
                Err(er) => sp_function(toks_view(toks@), pos as int, end)
                    == Err::<(SpecFunction, int), SpecParseError>(er@),
            },
    {
        match Type::parser(toks, pos, end) {
            Err(e) => Err(e),
            Ok((rt, p1)) => match Identifier::parser(toks, p1, end) {
                Err(e) => Err(e),
                Ok((name, p2)) => if peek_ctrl(toks, p2, Ctrl::LParen) {
                    let par_res: Result<(Option<Parameter>, usize), ParseError> = if peek_type(toks, p2 + 1) {
                        match Parameter::parser(toks, p2 + 1, end) {
                            Err(e) => Err(e),
                            Ok((pa, q)) => Ok((Some(pa), q)),
                        }
                    } else if peek_ctrl(toks, p2 + 1, Ctrl::RParen) {
                        Ok((None, p2 + 1))
                    } else {
                        Err(err_at(toks, p2 + 1, end, param_set_vec()))
                    };
                    match par_res {
                        Err(e) => Err(e),
                        Ok((param, p4)) => if peek_ctrl(toks, p4, Ctrl::RParen) {
                            if peek_ctrl(toks, p4 + 1, Ctrl::LBracket) {
                                match parse_var_list(toks, p4 + 2, end) {
                                    Err(e) => Err(e),
                                    Ok((vars, p5)) => match parse_stmt_list(toks, p5, end) {
                                        Err(e) => Err(e),
                                        Ok((stmts, p6)) => if peek_ctrl(toks, p6, Ctrl::RBracket) {
                                            Ok((
                                                Function {
                                                    return_type: rt,
                                                    name,
                                                    parameter: param,
                                                    variables: vars,
                                                    statements: stmts,
                                                },
                                                p6 + 1,
                                            ))
                                        } else {
                                            Err(err_at(toks, p6, end, stmt_close_set_vec()))
                                        },
                                    },
                                }
                            } else {
                                Err(err_at(toks, p4 + 1, end, one_exp(Expected::Ctrl(Ctrl::LBracket))))
                            }
                        } else {
                            Err(err_at(toks, p4, end, one_exp(Expected::Ctrl(Ctrl::RParen))))
                        },
                    }
                } else {
                    Err(err_at(toks, p2, end, one_exp(Expected::Ctrl(Ctrl::LParen))))
                },
            },
        }
    }
}

fn parse_program_rest(toks: &Vec<(Token, Span)>, pos: usize, end: usize) -> (r: Result<(Vec<Function>, usize), ParseError>)
    requires
        pos <= toks@.len(),
        end < usize::MAX,
    ensures
        match r {
            Ok((fs, p)) => sp_program_rest(toks_view(toks@), pos as int, end)
                == Ok::<(Seq<SpecFunction>, int), SpecParseError>((view_funs(fs@), p as int)) && pos <= p && p <= toks@.len(),
            Err(er) => sp_program_rest(toks_view(toks@), pos as int, end)
                == Err::<(Seq<SpecFunction>, int), SpecParseError>(er@),
        },
    decreases toks@.len() - pos,
{
    if pos == toks.len() {
        let empty: Vec<Function> = Vec::new();
        proof {
            assert(empty@ =~= Seq::<Function>::empty());
            assert(view_funs(empty@) =~= Seq::<SpecFunction>::empty());
        }
        Ok((empty, pos))
    } else if peek_type(toks, pos) {
        match Function::parser(toks, pos, end) {
            Err(e) => Err(e),
            Ok((f, p1)) => match parse_program_rest(toks, p1, end) {
                Err(e) => Err(e),
                Ok((mut rest, p2)) => {
                    proof {
                        lemma_view_funs_cons(f, rest@);
                    }
                    rest.insert(0, f);
                    Ok((rest, p2))
                },
            },
        }
    } else {
        Err(err_at(toks, pos, end, more_fns_set_vec()))
    }
}

impl Program {
    /// Parses a whole program: one or more functions covering every token.
    /// On failure the set holds exactly the one terminal error, since the
    /// engine defines no recovery points.
    pub fn parser(toks: &Vec<(Token, Span)>, end: usize) -> (r: Result<Program, Vec<ParseError>>)
        requires
            end < usize::MAX,
        ensures
            match r {
                Ok(prog) => sp_program(toks_view(toks@), end)
                    == Ok::<SpecProgram, SpecParseError>(prog@),
                Err(es) => es@.len() == 1 && sp_program(toks_view(toks@), end)
                    == Err::<SpecProgram, SpecParseError>(es@[0]@),
            },
    {
        match Function::parser(toks, 0, end) {
            Err(e) => {
                let mut es: Vec<ParseError> = Vec::new();
                es.push(e);
                Err(es)
            },
            Ok((f, p1)) => match parse_program_rest(toks, p1, end) {
                Err(e) => {
                    let mut es: Vec<ParseError> = Vec::new();
                    es.push(e);
                    Err(es)
                },
                Ok((mut rest, _p2)) => {
                    proof {
                        lemma_view_funs_cons(f, rest@);
                    }
                    rest.insert(0, f);
                    Ok(Program { functions: rest })
                },
            },
        }
    }
}

} // verus!
