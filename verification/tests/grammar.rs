use minic::ast::Arop;
use minic::ast::Exp;
use minic::ast::Function;
use minic::ast::Identifier;
use minic::ast::Literal;
use minic::ast::Parameter;
use minic::ast::Program;
use minic::ast::RelExp;
use minic::ast::Relop;
use minic::ast::Statement;
use minic::ast::Type;
use minic::error::Expected;
use minic::error::ParseError;
use minic::error::ParseReason;
use minic::error::Span;
use minic::lexer::Ctrl;
use minic::lexer::Token;
use minic::lexer::lexer;

fn chars(s: &str) -> Vec<char> {
    s.chars().collect()
}

fn parse(s: &str) -> Result<Program, Vec<ParseError>> {
    let cs = chars(s);
    let toks = lexer(&cs).expect("expected clean tokenization");
    Program::parser(&toks, cs.len())
}

fn parse_err(s: &str) -> ParseError {
    let mut errs = parse(s).expect_err("expected a parse error");
    assert_eq!(errs.len(), 1);
    errs.remove(0)
}

/// Parses one whole expression, checking that it consumes every token.
fn parse_exp(s: &str) -> Exp {
    let cs = chars(s);
    let toks = lexer(&cs).expect("expected clean tokenization");
    let (e, p) = Exp::parser(&toks, 0, cs.len()).expect("expected an expression");
    assert_eq!(p, toks.len());
    e
}

fn ident(s: &str) -> Identifier {
    Identifier(s.to_string())
}

fn lit(v: i32) -> Exp {
    Exp::Literal(Literal::IntNum(v))
}

fn bin(l: Exp, op: Arop, r: Exp) -> Exp {
    Exp::Binary(Box::new(l), op, Box::new(r))
}

#[test]
fn precedence_product_binds_tighter() {
    assert_eq!(
        parse_exp("1+2*3"),
        bin(lit(1), Arop::Add, bin(lit(2), Arop::Mul, lit(3)))
    );
}

#[test]
fn left_associative_fold() {
    assert_eq!(
        parse_exp("10-3-2"),
        bin(bin(lit(10), Arop::Sub, lit(3)), Arop::Sub, lit(2))
    );
}

#[test]
fn parentheses_override_precedence() {
    assert_eq!(
        parse_exp("(1+2)*3"),
        bin(bin(lit(1), Arop::Add, lit(2)), Arop::Mul, lit(3))
    );
}

#[test]
fn call_without_argument() {
    assert_eq!(
        parse_exp("f()"),
        Exp::FunctionCall { name: ident("f"), arg: None }
    );
}

#[test]
fn call_with_argument() {
    assert_eq!(
        parse_exp("f(x)"),
        Exp::FunctionCall {
            name: ident("f"),
            arg: Some(Box::new(Exp::Identifier(ident("x")))),
        }
    );
}

#[test]
fn bare_identifier_in_value_position() {
    assert_eq!(parse_exp("f"), Exp::Identifier(ident("f")));
}

#[test]
fn empty_input_is_rejected() {
    let err = parse_err("");
    assert_eq!(err.span, Span { start: 0, end: 1 });
    match err.reason {
        ParseReason::UnexpectedToken { expected, found } => {
            assert_eq!(found, None);
            assert!(expected.contains(&Expected::Ty(minic::lexer::Type::Int)));
            assert!(expected.contains(&Expected::Ty(minic::lexer::Type::Unsigned)));
        }
        other => panic!("expected an unexpected-token reason, got {other:?}"),
    }
}

#[test]
fn unclosed_delimiter_points_at_the_blocker() {
    let err = parse_err("int main( { return 0; }");
    // the `{` stands at character 10
    assert_eq!(err.span, Span { start: 10, end: 11 });
    match err.reason {
        ParseReason::UnexpectedToken { expected, found } => {
            assert!(expected.contains(&Expected::Ctrl(Ctrl::RParen)));
            assert_eq!(found, Some(Token::Ctrl(Ctrl::LBracket)));
        }
        other => panic!("expected an unexpected-token reason, got {other:?}"),
    }
}

#[test]
fn end_to_end_minimal_program() {
    assert_eq!(
        parse("int main() { return 0; }").unwrap(),
        Program {
            functions: vec![Function {
                return_type: Type::Int,
                name: ident("main"),
                parameter: None,
                variables: vec![],
                statements: vec![Statement::Return { value: lit(0) }],
            }],
        }
    );
}

#[test]
fn end_to_end_parameter_and_condition() {
    let prog = parse("unsigned f(int x) { if (x > 0) return x; else return 0; }").unwrap();
    assert_eq!(
        prog,
        Program {
            functions: vec![Function {
                return_type: Type::Unsigned,
                name: ident("f"),
                parameter: Some(Parameter { kind: Type::Int, identifier: ident("x") }),
                variables: vec![],
                statements: vec![Statement::If {
                    condition: RelExp {
                        lhs: Exp::Identifier(ident("x")),
                        operator: Relop::Gt,
                        rhs: lit(0),
                    },
                    if_part: Box::new(Statement::Return { value: Exp::Identifier(ident("x")) }),
                    else_part: Some(Box::new(Statement::Return { value: lit(0) })),
                }],
            }],
        }
    );
}

#[test]
fn variables_assignments_and_compounds() {
    let prog = parse("int main() { int x; unsigned y; x = 1 + 2; { y = 3u; } }").unwrap();
    let f = &prog.functions[0];
    assert_eq!(f.variables.len(), 2);
    assert_eq!(f.variables[0].kind, Type::Int);
    assert_eq!(f.variables[0].identifier, ident("x"));
    assert_eq!(f.variables[1].kind, Type::Unsigned);
    assert_eq!(
        f.statements,
        vec![
            Statement::Assignment { lhs: ident("x"), rhs: bin(lit(1), Arop::Add, lit(2)) },
            Statement::Compound(vec![Statement::Assignment {
                lhs: ident("y"),
                rhs: Exp::Literal(Literal::UintNum(3)),
            }]),
        ]
    );
}

#[test]
fn several_functions_in_order() {
    let prog = parse("int a() { return 1; } unsigned b() { return 2u; }").unwrap();
    assert_eq!(prog.functions.len(), 2);
    assert_eq!(prog.functions[0].name, ident("a"));
    assert_eq!(prog.functions[1].name, ident("b"));
}

#[test]
fn sign_folding_quirk_makes_a_minus_one_a_syntax_error() {
    // `a-1` lexes as `a` followed directly by the literal `-1`, so the
    // grammar sees two adjacent atoms and rejects the statement.
    let err = parse_err("int main() { return a-1; }");
    match err.reason {
        ParseReason::UnexpectedToken { expected, found } => {
            assert_eq!(expected, vec![Expected::Ctrl(Ctrl::Semicolon)]);
            assert_eq!(found, Some(Token::IntNum(-1)));
        }
        other => panic!("expected an unexpected-token reason, got {other:?}"),
    }
}

#[test]
fn statement_identifier_needs_assignment() {
    let err = parse_err("int main() { x; }");
    match err.reason {
        ParseReason::UnexpectedToken { expected, found } => {
            assert_eq!(expected, vec![Expected::Op(minic::lexer::Op::Assign)]);
            assert_eq!(found, Some(Token::Ctrl(Ctrl::Semicolon)));
        }
        other => panic!("expected an unexpected-token reason, got {other:?}"),
    }
}

#[test]
fn parameter_position_wants_type_or_close() {
    let err = parse_err("int f(x) { return 0; }");
    match err.reason {
        ParseReason::UnexpectedToken { expected, found } => {
            assert!(expected.contains(&Expected::Ty(minic::lexer::Type::Int)));
            assert!(expected.contains(&Expected::Ctrl(Ctrl::RParen)));
            assert_eq!(found, Some(Token::Ident("x".to_string())));
        }
        other => panic!("expected an unexpected-token reason, got {other:?}"),
    }
}

#[test]
fn trailing_tokens_want_function_or_end() {
    let err = parse_err("int main() { return 0; } ;");
    match err.reason {
        ParseReason::UnexpectedToken { expected, found } => {
            assert!(expected.contains(&Expected::End));
            assert_eq!(found, Some(Token::Ctrl(Ctrl::Semicolon)));
        }
        other => panic!("expected an unexpected-token reason, got {other:?}"),
    }
}

#[test]
fn empty_parentheses_are_no_expression() {
    let err = parse_err("int main() { return (); }");
    match err.reason {
        ParseReason::UnexpectedToken { expected, found } => {
            assert!(expected.contains(&Expected::Ident));
            assert!(expected.contains(&Expected::Lit));
            assert_eq!(found, Some(Token::Ctrl(Ctrl::RParen)));
        }
        other => panic!("expected an unexpected-token reason, got {other:?}"),
    }
}

#[test]
fn end_of_input_error_span_sits_past_the_text() {
    let source = "int main() { return 0;";
    let err = parse_err(source);
    let n = source.chars().count();
    assert_eq!(err.span, Span { start: n, end: n + 1 });
    match err.reason {
        ParseReason::UnexpectedToken { found, .. } => assert_eq!(found, None),
        other => panic!("expected an unexpected-token reason, got {other:?}"),
    }
}

#[test]
fn dangling_else_binds_to_the_inner_if() {
    let prog = parse("int main() { if (1 > 0) if (2 > 1) return 1; else return 2; }").unwrap();
    match &prog.functions[0].statements[0] {
        Statement::If { else_part: outer_else, if_part, .. } => {
            assert!(outer_else.is_none());
            match if_part.as_ref() {
                Statement::If { else_part: inner_else, .. } => assert!(inner_else.is_some()),
                other => panic!("expected a nested if, got {other:?}"),
            }
        }
        other => panic!("expected an if statement, got {other:?}"),
    }
}
