use minic::error::LexError;
use minic::error::Span;
use minic::lexer::Ctrl;
use minic::lexer::Keyword;
use minic::lexer::Op;
use minic::lexer::Token;
use minic::lexer::Type;
use minic::lexer::lexer;

fn chars(s: &str) -> Vec<char> {
    s.chars().collect()
}

fn toks(s: &str) -> Vec<Token> {
    lexer(&chars(s))
        .expect("expected clean tokenization")
        .into_iter()
        .map(|(t, _)| t)
        .collect()
}

fn lex_errs(s: &str) -> Vec<LexError> {
    lexer(&chars(s)).expect_err("expected lexical errors")
}

#[test]
fn literal_suffix_unsigned_lower() {
    assert_eq!(toks("5u"), vec![Token::UintNum(5)]);
}

#[test]
fn literal_suffix_unsigned_upper() {
    assert_eq!(toks("5U"), vec![Token::UintNum(5)]);
}

#[test]
fn literal_no_suffix_is_signed() {
    assert_eq!(toks("5"), vec![Token::IntNum(5)]);
}

#[test]
fn literal_negative() {
    assert_eq!(toks("-5"), vec![Token::IntNum(-5)]);
}

#[test]
fn literal_positive_sign() {
    assert_eq!(toks("+5"), vec![Token::IntNum(5)]);
}

#[test]
fn keyword_boundary_maximal_munch() {
    assert_eq!(
        toks("ifx = 1;"),
        vec![
            Token::Ident("ifx".to_string()),
            Token::Op(Op::Assign),
            Token::IntNum(1),
            Token::Ctrl(Ctrl::Semicolon),
        ]
    );
}

#[test]
fn keywords_types_and_idents() {
    assert_eq!(
        toks("if else return int unsigned integer _a1"),
        vec![
            Token::Keyword(Keyword::If),
            Token::Keyword(Keyword::Else),
            Token::Keyword(Keyword::Return),
            Token::Type(Type::Int),
            Token::Type(Type::Unsigned),
            Token::Ident("integer".to_string()),
            Token::Ident("_a1".to_string()),
        ]
    );
}

#[test]
fn operators_two_char_before_one_char() {
    assert_eq!(
        toks("<= >= == != < > = + - * /"),
        vec![
            Token::Op(Op::Le),
            Token::Op(Op::Ge),
            Token::Op(Op::Eq),
            Token::Op(Op::Ne),
            Token::Op(Op::Lt),
            Token::Op(Op::Gt),
            Token::Op(Op::Assign),
            Token::Op(Op::Add),
            Token::Op(Op::Sub),
            Token::Op(Op::Mul),
            Token::Op(Op::Div),
        ]
    );
}

#[test]
fn punctuation() {
    assert_eq!(
        toks("(){};"),
        vec![
            Token::Ctrl(Ctrl::LParen),
            Token::Ctrl(Ctrl::RParen),
            Token::Ctrl(Ctrl::LBracket),
            Token::Ctrl(Ctrl::RBracket),
            Token::Ctrl(Ctrl::Semicolon),
        ]
    );
}

#[test]
fn spans_are_half_open_char_ranges() {
    let spanned = lexer(&chars("if x")).unwrap();
    assert_eq!(
        spanned,
        vec![
            (Token::Keyword(Keyword::If), Span { start: 0, end: 2 }),
            (Token::Ident("x".to_string()), Span { start: 3, end: 4 }),
        ]
    );
}

#[test]
fn line_comment_is_skipped() {
    assert_eq!(
        toks("int a // comment\nint b"),
        vec![
            Token::Type(Type::Int),
            Token::Ident("a".to_string()),
            Token::Type(Type::Int),
            Token::Ident("b".to_string()),
        ]
    );
}

#[test]
fn line_comment_at_end_of_text() {
    assert_eq!(toks("int // trailing"), vec![Token::Type(Type::Int)]);
}

#[test]
fn block_comment_spanning_lines() {
    assert_eq!(
        toks("a /* one\ntwo */ b"),
        vec![Token::Ident("a".to_string()), Token::Ident("b".to_string())]
    );
}

#[test]
fn unclosed_block_comment_is_not_a_comment() {
    assert_eq!(
        toks("a /* b"),
        vec![
            Token::Ident("a".to_string()),
            Token::Op(Op::Div),
            Token::Op(Op::Mul),
            Token::Ident("b".to_string()),
        ]
    );
}

#[test]
fn sign_folding_quirk_after_identifier() {
    assert_eq!(
        toks("a-1"),
        vec![Token::Ident("a".to_string()), Token::IntNum(-1)]
    );
}

#[test]
fn minus_after_literal_is_subtraction() {
    assert_eq!(
        toks("10-3-2"),
        vec![
            Token::IntNum(10),
            Token::Op(Op::Sub),
            Token::IntNum(3),
            Token::Op(Op::Sub),
            Token::IntNum(2),
        ]
    );
}

#[test]
fn unexpected_char_reports_exact_span() {
    assert_eq!(
        lex_errs("ab @"),
        vec![LexError::UnexpectedChar(Span { start: 3, end: 4 })]
    );
}

#[test]
fn several_lex_errors_in_one_pass() {
    assert_eq!(
        lex_errs("@ #"),
        vec![
            LexError::UnexpectedChar(Span { start: 0, end: 1 }),
            LexError::UnexpectedChar(Span { start: 2, end: 3 }),
        ]
    );
}

#[test]
fn bang_alone_is_an_error() {
    assert_eq!(
        lex_errs("a ! b"),
        vec![LexError::UnexpectedChar(Span { start: 2, end: 3 })]
    );
}

#[test]
fn signed_literal_bounds() {
    assert_eq!(toks("2147483647"), vec![Token::IntNum(2147483647)]);
    assert_eq!(toks("-2147483648"), vec![Token::IntNum(i32::MIN)]);
    assert_eq!(
        lex_errs("2147483648"),
        vec![LexError::LiteralOutOfRange(Span { start: 0, end: 10 })]
    );
    assert_eq!(
        lex_errs("-2147483649"),
        vec![LexError::LiteralOutOfRange(Span { start: 0, end: 11 })]
    );
}

#[test]
fn unsigned_literal_bounds() {
    assert_eq!(toks("4294967295u"), vec![Token::UintNum(4294967295)]);
    assert_eq!(
        lex_errs("4294967296u"),
        vec![LexError::LiteralOutOfRange(Span { start: 0, end: 11 })]
    );
}

#[test]
fn unsigned_suffix_needs_adjacent_digits() {
    assert_eq!(
        toks("5 u"),
        vec![Token::IntNum(5), Token::Ident("u".to_string())]
    );
}
