//! The tokenizer: scans the source text (a sequence of characters) into an
//! ordered sequence of spanned tokens, skipping whitespace and comments. Its
//! whole behaviour is given by the spec-level scanner `sp_lex`, and the
//! executable `lexer` is proved to return exactly what `sp_lex` says.

use vstd::prelude::*;

use crate::error::LexError;
use crate::error::Span;

verus! {

/// A classified lexical unit.
#[derive(Debug, Clone, PartialEq, Eq, Hash)]
pub enum Token {
    Keyword(Keyword),
    Type(Type),
    Ident(String),
    UintNum(u32),
    IntNum(i32),
    Ctrl(Ctrl),
    Op(Op),
}

/// The three fixed keywords.
#[derive(Debug, Clone, Copy, PartialEq, Eq, Hash, Structural)]
pub enum Keyword {
    If,
    Else,
    Return,
}

/// The two type names.
#[derive(Debug, Clone, Copy, PartialEq, Eq, Hash, Structural)]
pub enum Type {
    Int,
    Unsigned,
}

/// Single-character punctuation.
#[derive(Debug, Clone, Copy, PartialEq, Eq, Hash, Structural)]
pub enum Ctrl {
    LParen,
    RParen,
    LBracket,
    RBracket,
    Semicolon,
}

/// Operators, one or two characters wide.
#[derive(Debug, Clone, Copy, PartialEq, Eq, Hash, Structural)]
pub enum Op {
    Add,
    Sub,
    Mul,
    Div,
    Lt,
    Gt,
    Le,
    Ge,
    Eq,
    Ne,
    Assign,
}

/// Model of `Token`: identifier text as `Seq<char>`, literal values as
/// unbounded integers.
#[verifier::ext_equal]
pub enum SpecToken {
    Keyword(Keyword),
    Type(Type),
    Ident(Seq<char>),
    UintNum(int),
    IntNum(int),
    Ctrl(Ctrl),
    Op(Op),
}

impl View for Token {
    type V = SpecToken;

    open spec fn view(&self) -> SpecToken {
        match self {
            Token::Keyword(k) => SpecToken::Keyword(*k),
            Token::Type(t) => SpecToken::Type(*t),
            Token::Ident(s) => SpecToken::Ident(s@),
            Token::UintNum(v) => SpecToken::UintNum(*v as int),
            Token::IntNum(v) => SpecToken::IntNum(*v as int),
            Token::Ctrl(c) => SpecToken::Ctrl(*c),
            Token::Op(o) => SpecToken::Op(*o),
        }
    }
}

impl Token {
    /// An owned copy whose model is the same; used where an error must carry
    /// the token it found.
    pub fn dup(&self) -> (t: Token)
        ensures
            t@ == self@,
    {
        match self {
            Token::Keyword(k) => Token::Keyword(*k),
            Token::Type(t) => Token::Type(*t),
            Token::Ident(s) => Token::Ident(s.clone()),
            Token::UintNum(v) => Token::UintNum(*v),
            Token::IntNum(v) => Token::IntNum(*v),
            Token::Ctrl(c) => Token::Ctrl(*c),
            Token::Op(o) => Token::Op(*o),
        }
    }
}

// ---------------------------------------------------------------------------
// The mathematical scanner. `sp_lex` fixes, for every source text and start
// position, exactly which tokens and which lexical errors come out; the
// executable functions below are proved to agree with it.
// ---------------------------------------------------------------------------

/// The whitespace characters the tokenizer skips.
pub open spec fn sp_is_space(c: char) -> bool {
    c == ' ' || c == '\t' || c == '\r' || c == '\n'
}

/// A character that may start an identifier: an ASCII letter or underscore.
pub open spec fn sp_is_ident_start(c: char) -> bool {
    (97 <= c as u32 && c as u32 <= 122) || (65 <= c as u32 && c as u32 <= 90) || c as u32 == 95
}

/// A character that may continue an identifier.
pub open spec fn sp_is_ident_char(c: char) -> bool {
    sp_is_ident_start(c) || sp_is_digit(c)
}

/// A decimal digit.
pub open spec fn sp_is_digit(c: char) -> bool {
    48 <= c as u32 && c as u32 <= 57
}

/// The position of the first line break at or after `p`, or the text length.
pub open spec fn sp_find_nl(src: Seq<char>, p: int) -> int
    decreases src.len() - p,
{
    if !(0 <= p && p < src.len()) {
        src.len() as int
    } else if src[p] == '\n' {
        p
    } else {
        sp_find_nl(src, p + 1)
    }
}

/// The position of the first block-comment terminator at or after `p`, or
/// the text length if the comment never closes.
pub open spec fn sp_find_close(src: Seq<char>, p: int) -> int
    decreases src.len() - p,
{
    if !(0 <= p && p + 1 < src.len()) {
        src.len() as int
    } else if src[p] == '*' && src[p + 1] == '/' {
        p
    } else {
        sp_find_close(src, p + 1)
    }
}

/// The first position at or after `p` where a token may start: whitespace is
/// skipped, a line comment runs through its line break (or to the end of the
/// text), and a closed block comment is skipped whole. An unclosed `/*` is
/// not a comment, so scanning stops on its `/`.
pub open spec fn sp_skip(src: Seq<char>, p: int) -> int
    decreases src.len() - p,
{
    if !(0 <= p && p < src.len()) {
        p
    } else if sp_is_space(src[p]) {
        sp_skip(src, p + 1)
    } else if src[p] == '/' && p + 1 < src.len() && src[p + 1] == '/' {
        let q = sp_find_nl(src, p + 2);
        if p + 2 <= q && q < src.len() {
            sp_skip(src, q + 1)
        } else {
            src.len() as int
        }
    } else if src[p] == '/' && p + 1 < src.len() && src[p + 1] == '*' {
        let q = sp_find_close(src, p + 2);
        if p + 2 <= q && q + 2 <= src.len() {
            sp_skip(src, q + 2)
        } else {
            p
        }
    } else {
        p
    }
}

/// The position right after the identifier characters starting at `p`.
pub open spec fn sp_ident_end(src: Seq<char>, p: int) -> int
    decreases src.len() - p,
{
    if !(0 <= p && p < src.len()) {
        p
    } else if sp_is_ident_char(src[p]) {
        sp_ident_end(src, p + 1)
    } else {
        p
    }
}

/// The position right after the digits starting at `p`.
pub open spec fn sp_digits_end(src: Seq<char>, p: int) -> int
    decreases src.len() - p,
{
    if !(0 <= p && p < src.len()) {
        p
    } else if sp_is_digit(src[p]) {
        sp_digits_end(src, p + 1)
    } else {
        p
    }
}

/// The value of the decimal digit run `src[a..b]`.
pub open spec fn sp_dec_val(src: Seq<char>, a: int, b: int) -> int
    decreases b - a,
{
    if a >= b {
        0
    } else {
        sp_dec_val(src, a, b - 1) * 10 + (src[b - 1] as u32 - 48)
    }
}

/// What an identifier-shaped word lexes to: one of the fixed keywords or
/// type names when it is exactly that word (maximal munch is built in,
/// because the word runs to the first non-identifier character), otherwise
/// an identifier.
pub open spec fn sp_word_token(w: Seq<char>) -> SpecToken {
    if w == seq!['i', 'f'] {
        SpecToken::Keyword(Keyword::If)
    } else if w == seq!['e', 'l', 's', 'e'] {
        SpecToken::Keyword(Keyword::Else)
    } else if w == seq!['r', 'e', 't', 'u', 'r', 'n'] {
        SpecToken::Keyword(Keyword::Return)
    } else if w == seq!['i', 'n', 't'] {
        SpecToken::Type(Type::Int)
    } else if w == seq!['u', 'n', 's', 'i', 'g', 'n', 'e', 'd'] {
        SpecToken::Type(Type::Unsigned)
    } else {
        SpecToken::Ident(w)
    }
}

/// The punctuation or operator token starting at `q`, with its width; `None`
/// for a character that starts no token. Two-character operators win over
/// their one-character prefixes.
pub open spec fn sp_symbol(src: Seq<char>, q: int) -> Option<(SpecToken, int)> {
    let c = src[q];
    let two = q + 1 < src.len();
    if c == '<' {
        if two && src[q + 1] == '=' { Some((SpecToken::Op(Op::Le), 2)) } else { Some((SpecToken::Op(Op::Lt), 1)) }
    } else if c == '>' {
        if two && src[q + 1] == '=' { Some((SpecToken::Op(Op::Ge), 2)) } else { Some((SpecToken::Op(Op::Gt), 1)) }
    } else if c == '=' {
        if two && src[q + 1] == '=' { Some((SpecToken::Op(Op::Eq), 2)) } else { Some((SpecToken::Op(Op::Assign), 1)) }
    } else if c == '!' {
        if two && src[q + 1] == '=' { Some((SpecToken::Op(Op::Ne), 2)) } else { None }
    } else if c == '(' {
        Some((SpecToken::Ctrl(Ctrl::LParen), 1))
    } else if c == ')' {
        Some((SpecToken::Ctrl(Ctrl::RParen), 1))
    } else if c == '{' {
        Some((SpecToken::Ctrl(Ctrl::LBracket), 1))
    } else if c == '}' {
        Some((SpecToken::Ctrl(Ctrl::RBracket), 1))
    } else if c == ';' {
        Some((SpecToken::Ctrl(Ctrl::Semicolon), 1))
    } else if c == '+' {
        Some((SpecToken::Op(Op::Add), 1))
    } else if c == '-' {
        Some((SpecToken::Op(Op::Sub), 1))
    } else if c == '*' {
        Some((SpecToken::Op(Op::Mul), 1))
    } else if c == '/' {
        Some((SpecToken::Op(Op::Div), 1))
    } else {
        None
    }
}

/// A span from character position `a` (inclusive) to `b` (exclusive).
pub open spec fn sp_span(a: int, b: int) -> Span {
    Span { start: a as usize, end: b as usize }
}

/// The tokens and lexical errors of `src` from position `p` on. At each
/// position, after skipping whitespace and comments, the first matching rule
/// wins: identifier or keyword word, unsigned literal (digits with a `u`/`U`
/// suffix), signed literal (digits, or `+`/`-` immediately followed by a
/// digit), punctuation, operator. A digit run whose value does not fit its
/// 32-bit literal type is a `LiteralOutOfRange` error; a character that
/// starts no token is an `UnexpectedChar` error; both are skipped and
/// scanning goes on, so every error of the text is surfaced in one pass.
///
/// `after_lit` says whether the previous lexeme was a numeric literal. A
/// `+`/`-` right before a digit is folded into the literal only when it is
/// not, so `10-3` reads as a subtraction while `a-1` keeps the documented
/// sign-folding quirk: identifier `a` followed directly by the literal `-1`,
/// with no operator between them, which the grammar then rejects.
pub open spec fn sp_lex(src: Seq<char>, p: int, after_lit: bool) -> (Seq<(SpecToken, Span)>, Seq<LexError>)
    decreases src.len() - p,
{
    let q = sp_skip(src, p);
    if !(p <= q && q < src.len()) {
        (Seq::empty(), Seq::empty())
    } else {
        let c = src[q];
        if sp_is_ident_start(c) {
            let e = sp_ident_end(src, q);
            if q < e && e <= src.len() {
                let tok = sp_word_token(src.subrange(q, e));
                let rest = sp_lex(src, e, false);
                (seq![(tok, sp_span(q, e))] + rest.0, rest.1)
            } else {
                (Seq::empty(), Seq::empty())
            }
        } else if sp_is_digit(c) {
            let e = sp_digits_end(src, q);
            let v = sp_dec_val(src, q, e);
            if q < e && e <= src.len() {
                if e < src.len() && (src[e] == 'u' || src[e] == 'U') {
                    let rest = sp_lex(src, e + 1, true);
                    if v <= 0xFFFF_FFFF {
                        (seq![(SpecToken::UintNum(v), sp_span(q, e + 1))] + rest.0, rest.1)
                    } else {
                        (rest.0, seq![LexError::LiteralOutOfRange(sp_span(q, e + 1))] + rest.1)
                    }
                } else {
                    let rest = sp_lex(src, e, true);
                    if v <= 0x7FFF_FFFF {
                        (seq![(SpecToken::IntNum(v), sp_span(q, e))] + rest.0, rest.1)
                    } else {
                        (rest.0, seq![LexError::LiteralOutOfRange(sp_span(q, e))] + rest.1)
                    }
                }
            } else {
                (Seq::empty(), Seq::empty())
            }
        } else if (c == '+' || c == '-') && !after_lit && q + 1 < src.len() && sp_is_digit(src[q + 1]) {
            let e = sp_digits_end(src, q + 1);
            let v = sp_dec_val(src, q + 1, e);
            let sv = if c == '-' { -v } else { v };
            if q + 1 < e && e <= src.len() {
                let rest = sp_lex(src, e, true);
                if -0x8000_0000 <= sv && sv <= 0x7FFF_FFFF {
                    (seq![(SpecToken::IntNum(sv), sp_span(q, e))] + rest.0, rest.1)
                } else {
                    (rest.0, seq![LexError::LiteralOutOfRange(sp_span(q, e))] + rest.1)
                }
            } else {
                (Seq::empty(), Seq::empty())
            }
        } else {
            match sp_symbol(src, q) {
                Some((tok, w)) => {
                    if 0 < w && q + w <= src.len() {
                        let rest = sp_lex(src, q + w, false);
                        (seq![(tok, sp_span(q, q + w))] + rest.0, rest.1)
                    } else {
                        (Seq::empty(), Seq::empty())
                    }
                },
                None => {
                    let rest = sp_lex(src, q + 1, false);
                    (rest.0, seq![LexError::UnexpectedChar(sp_span(q, q + 1))] + rest.1)
                },
            }
        }
    }
}

/// The model of a spanned token sequence.
pub open spec fn toks_view(v: Seq<(Token, Span)>) -> Seq<(SpecToken, Span)> {
    Seq::new(v.len(), |i: int| (v[i].0@, v[i].1))
}

pub proof fn lemma_toks_view_cons(t0: Token, s0: Span, v: Seq<(Token, Span)>)
    ensures
        toks_view(v.insert(0, (t0, s0))) == seq![(t0@, s0)] + toks_view(v),
{
    assert(toks_view(v.insert(0, (t0, s0))) =~= seq![(t0@, s0)] + toks_view(v));
}

// ---------------------------------------------------------------------------
// The executable scanner.
// ---------------------------------------------------------------------------

/// Relies on String::push: appends exactly the given character.
pub assume_specification[ String::push ](s: &mut String, c: char)
    ensures
        final(s)@ == old(s)@.push(c),
;

fn is_space(c: char) -> (b: bool)
    ensures
        b == sp_is_space(c),
{
    c == ' ' || c == '\t' || c == '\r' || c == '\n'
}

fn is_ident_start(c: char) -> (b: bool)
    ensures
        b == sp_is_ident_start(c),
{
    let u = c as u32;
    (97 <= u && u <= 122) || (65 <= u && u <= 90) || u == 95
}

fn is_ident_char(c: char) -> (b: bool)
    ensures
        b == sp_is_ident_char(c),
{
    is_ident_start(c) || is_digit(c)
}

fn is_digit(c: char) -> (b: bool)
    ensures
        b == sp_is_digit(c),
{
    let u = c as u32;
    48 <= u && u <= 57
}

fn find_nl(src: &Vec<char>, p: usize) -> (r: usize)
    requires
        p <= src@.len(),
    ensures
        r == sp_find_nl(src@, p as int),
        p <= r && r <= src@.len(),
    decreases src@.len() - p,
{
    if p >= src.len() {
        src.len()
    } else if src[p] == '\n' {
        p
    } else {
        find_nl(src, p + 1)
    }
}

fn find_close(src: &Vec<char>, p: usize) -> (r: usize)
    requires
        p <= src@.len(),
    ensures
        r == sp_find_close(src@, p as int),
        p <= r && r <= src@.len(),
        r < src@.len() ==> r + 1 < src@.len(),
    decreases src@.len() - p,
{
    if p >= src.len() || p + 1 >= src.len() {
        src.len()
    } else if src[p] == '*' && src[p + 1] == '/' {
        p
    } else {
        find_close(src, p + 1)
    }
}

fn skip_ws(src: &Vec<char>, p: usize) -> (r: usize)
    requires
        p <= src@.len(),
    ensures
        r == sp_skip(src@, p as int),
        p <= r && r <= src@.len(),
    decreases src@.len() - p,
{
    if p >= src.len() {
        p
    } else if is_space(src[p]) {
        skip_ws(src, p + 1)
    } else if src[p] == '/' && p + 1 < src.len() && src[p + 1] == '/' {
        let q = find_nl(src, p + 2);
        if q < src.len() {
            skip_ws(src, q + 1)
        } else {
            src.len()
        }
    } else if src[p] == '/' && p + 1 < src.len() && src[p + 1] == '*' {
        let q = find_close(src, p + 2);
        if q < src.len() {
            skip_ws(src, q + 2)
        } else {
            p
        }
    } else {
        p
    }
}

fn ident_end(src: &Vec<char>, p: usize) -> (r: usize)
    requires
        p <= src@.len(),
    ensures
        r == sp_ident_end(src@, p as int),
        p <= r && r <= src@.len(),
        (p < src@.len() && sp_is_ident_char(src@[p as int])) ==> r >= p + 1,
    decreases src@.len() - p,
{
    if p >= src.len() {
        p
    } else if is_ident_char(src[p]) {
        ident_end(src, p + 1)
    } else {
        p
    }
}

fn digits_end(src: &Vec<char>, p: usize) -> (r: usize)
    requires
        p <= src@.len(),
    ensures
        r == sp_digits_end(src@, p as int),
        p <= r && r <= src@.len(),
        (p < src@.len() && sp_is_digit(src@[p as int])) ==> r >= p + 1,
        forall|i: int| p <= i < r ==> sp_is_digit(src@[i]),
    decreases src@.len() - p,
{
    if p >= src.len() {
        p
    } else if is_digit(src[p]) {
        digits_end(src, p + 1)
    } else {
        p
    }
}

/// The value of the digit run `src[a..b]`, saturated just above the 32-bit
/// range: the result equals the mathematical value whenever that value fits
/// in 32 bits, and otherwise merely stays above the 32-bit range.
fn digits_val(src: &Vec<char>, a: usize, b: usize) -> (r: u64)
    requires
        a <= b && b <= src@.len(),
        forall|i: int| a <= i < b ==> sp_is_digit(src@[i]),
    ensures
        sp_dec_val(src@, a as int, b as int) <= 0xFFFF_FFFF ==> r == sp_dec_val(src@, a as int, b as int),
        sp_dec_val(src@, a as int, b as int) > 0xFFFF_FFFF ==> r > 0xFFFF_FFFF,
    decreases b - a,
{
    if a >= b {
        0
    } else {
        let rest = digits_val(src, a, b - 1);
        let d = (src[b - 1] as u32 - 48) as u64;
        proof {
            assert(sp_dec_val(src@, a as int, b as int)
                == sp_dec_val(src@, a as int, b as int - 1) * 10 + (src@[b as int - 1] as u32 - 48));
        }
        if rest > 0xFFFF_FFFF {
            rest
        } else {
            rest * 10 + d
        }
    }
}

/// Collects `src[a..b]` into an owned string.
fn word_string(src: &Vec<char>, a: usize, b: usize) -> (s: String)
    requires
        a <= b && b <= src@.len(),
    ensures
        s@ == src@.subrange(a as int, b as int),
{
    let mut s = String::new();
    let mut i = a;
    while i < b
        invariant
            a <= i && i <= b && b <= src@.len(),
            s@ == src@.subrange(a as int, i as int),
        decreases b - i,
    {
        s.push(src[i]);
        proof {
            assert(src@.subrange(a as int, i + 1) =~= src@.subrange(a as int, i as int).push(
                src@[i as int],
            ));
        }
        i = i + 1;
    }
    proof {
        assert(s@ =~= src@.subrange(a as int, b as int));
    }
    s
}

/// The token for the identifier-shaped word `src[a..b]`.
fn word_token(src: &Vec<char>, a: usize, b: usize) -> (t: Token)
    requires
        a < b && b <= src@.len(),
    ensures
        t@ == sp_word_token(src@.subrange(a as int, b as int)),
{
    let ghost w = src@.subrange(a as int, b as int);
    proof {
        assert(w.len() == b - a);
        assert(forall|i: int| 0 <= i < w.len() ==> w[i] == src@[a + i]);
    }
    let n = b - a;
    if n == 2 && src[a] == 'i' && src[a + 1] == 'f' {
        proof {
            assert(w =~= seq!['i', 'f']);
        }
        Token::Keyword(Keyword::If)
    } else if n == 4 && src[a] == 'e' && src[a + 1] == 'l' && src[a + 2] == 's' && src[a + 3] == 'e' {
        proof {
            assert(w =~= seq!['e', 'l', 's', 'e']);
        }
        Token::Keyword(Keyword::Else)
    } else if n == 6 && src[a] == 'r' && src[a + 1] == 'e' && src[a + 2] == 't' && src[a + 3] == 'u'
        && src[a + 4] == 'r' && src[a + 5] == 'n' {
        proof {
            assert(w =~= seq!['r', 'e', 't', 'u', 'r', 'n']);
        }
        Token::Keyword(Keyword::Return)
    } else if n == 3 && src[a] == 'i' && src[a + 1] == 'n' && src[a + 2] == 't' {
        proof {
            assert(w =~= seq!['i', 'n', 't']);
        }
        Token::Type(Type::Int)
    } else if n == 8 && src[a] == 'u' && src[a + 1] == 'n' && src[a + 2] == 's' && src[a + 3] == 'i'
        && src[a + 4] == 'g' && src[a + 5] == 'n' && src[a + 6] == 'e' && src[a + 7] == 'd' {
        proof {
            assert(w =~= seq!['u', 'n', 's', 'i', 'g', 'n', 'e', 'd']);
        }
        Token::Type(Type::Unsigned)
    } else {
        let s = word_string(src, a, b);
        proof {
            assert(seq!['i', 'f'].len() == 2);
            assert(seq!['e', 'l', 's', 'e'].len() == 4);
            assert(seq!['r', 'e', 't', 'u', 'r', 'n'].len() == 6);
            assert(seq!['i', 'n', 't'].len() == 3);
            assert(seq!['u', 'n', 's', 'i', 'g', 'n', 'e', 'd'].len() == 8);
        }
        Token::Ident(s)
    }
}

/// The punctuation or operator token starting at `q`, with its width.
fn symbol_token(src: &Vec<char>, q: usize) -> (r: Option<(Token, usize)>)
    requires
        q < src@.len(),
    ensures
        match r {
            Some(tw) => sp_symbol(src@, q as int) == Some((tw.0@, tw.1 as int)),
            None => sp_symbol(src@, q as int) is None,
        },
{
    let c = src[q];
    let two = q < src.len() - 1;
    if c == '<' {
        if two && src[q + 1] == '=' { Some((Token::Op(Op::Le), 2)) } else { Some((Token::Op(Op::Lt), 1)) }
    } else if c == '>' {
        if two && src[q + 1] == '=' { Some((Token::Op(Op::Ge), 2)) } else { Some((Token::Op(Op::Gt), 1)) }
    } else if c == '=' {
        if two && src[q + 1] == '=' { Some((Token::Op(Op::Eq), 2)) } else { Some((Token::Op(Op::Assign), 1)) }
    } else if c == '!' {
        if two && src[q + 1] == '=' { Some((Token::Op(Op::Ne), 2)) } else { None }
    } else if c == '(' {
        Some((Token::Ctrl(Ctrl::LParen), 1))
    } else if c == ')' {
        Some((Token::Ctrl(Ctrl::RParen), 1))
    } else if c == '{' {
        Some((Token::Ctrl(Ctrl::LBracket), 1))
    } else if c == '}' {
        Some((Token::Ctrl(Ctrl::RBracket), 1))
    } else if c == ';' {
        Some((Token::Ctrl(Ctrl::Semicolon), 1))
    } else if c == '+' {
        Some((Token::Op(Op::Add), 1))
    } else if c == '-' {
        Some((Token::Op(Op::Sub), 1))
    } else if c == '*' {
        Some((Token::Op(Op::Mul), 1))
    } else if c == '/' {
        Some((Token::Op(Op::Div), 1))
    } else {
        None
    }
}

/// Scans from `p` to the end of the text, returning exactly the tokens and
/// errors that `sp_lex` names.
fn lex_from(src: &Vec<char>, p: usize, after_lit: bool) -> (r: (Vec<(Token, Span)>, Vec<LexError>))
    requires
        p <= src@.len(),
    ensures
        toks_view(r.0@) == sp_lex(src@, p as int, after_lit).0,
        r.1@ == sp_lex(src@, p as int, after_lit).1,
    decreases src@.len() - p,
{
    let q = skip_ws(src, p);
    if q >= src.len() {
        proof {
            assert(toks_view(Seq::<(Token, Span)>::empty()) =~= Seq::<(SpecToken, Span)>::empty());
        }
        (Vec::new(), Vec::new())
    } else {
        let c = src[q];
        if is_ident_start(c) {
            let e = ident_end(src, q);
            let tok = word_token(src, q, e);
            let sp = Span { start: q, end: e };
            let (mut ts, es) = lex_from(src, e, false);
            proof {
                lemma_toks_view_cons(tok, sp, ts@);
            }
            ts.insert(0, (tok, sp));
            (ts, es)
        } else if is_digit(c) {
            let e = digits_end(src, q);
            let v = digits_val(src, q, e);
            if e < src.len() && (src[e] == 'u' || src[e] == 'U') {
                let (mut ts, mut es) = lex_from(src, e + 1, true);
                if v <= 0xFFFF_FFFF {
                    let tok = Token::UintNum(v as u32);
                    let sp = Span { start: q, end: e + 1 };
                    proof {
                        lemma_toks_view_cons(tok, sp, ts@);
                    }
                    ts.insert(0, (tok, sp));
                    (ts, es)
                } else {
                    let err = LexError::LiteralOutOfRange(Span { start: q, end: e + 1 });
                    proof {
                        assert(es@.insert(0, err) =~= seq![err] + es@);
                    }
                    es.insert(0, err);
                    (ts, es)
                }
            } else {
                let (mut ts, mut es) = lex_from(src, e, true);
                if v <= 0x7FFF_FFFF {
                    let tok = Token::IntNum(v as i32);
                    let sp = Span { start: q, end: e };
                    proof {
                        lemma_toks_view_cons(tok, sp, ts@);
                    }
                    ts.insert(0, (tok, sp));
                    (ts, es)
                } else {
                    let err = LexError::LiteralOutOfRange(Span { start: q, end: e });
                    proof {
                        assert(es@.insert(0, err) =~= seq![err] + es@);
                    }
                    es.insert(0, err);
                    (ts, es)
                }
            }
        } else if (c == '+' || c == '-') && !after_lit && q + 1 < src.len() && is_digit(src[q + 1]) {
            let e = digits_end(src, q + 1);
            let v = digits_val(src, q + 1, e);
            let (mut ts, mut es) = lex_from(src, e, true);
            let ok = if c == '-' { v <= 0x8000_0000 } else { v <= 0x7FFF_FFFF };
            if ok {
                let val: i32 = if c == '-' {
                    if v == 0x8000_0000 {
                        i32::MIN
                    } else {
                        -(v as i32)
                    }
                } else {
                    v as i32
                };
                let tok = Token::IntNum(val);
                let sp = Span { start: q, end: e };
                proof {
                    lemma_toks_view_cons(tok, sp, ts@);
                }
                ts.insert(0, (tok, sp));
                (ts, es)
            } else {
                let err = LexError::LiteralOutOfRange(Span { start: q, end: e });
                proof {
                    assert(es@.insert(0, err) =~= seq![err] + es@);
                }
                es.insert(0, err);
                (ts, es)
            }
        } else {
            match symbol_token(src, q) {
                Some((tok, w)) => {
                    let (mut ts, es) = lex_from(src, q + w, false);
                    let sp = Span { start: q, end: q + w };
                    proof {
                        lemma_toks_view_cons(tok, sp, ts@);
                    }
                    ts.insert(0, (tok, sp));
                    (ts, es)
                },
                None => {
                    let (ts, mut es) = lex_from(src, q + 1, false);
                    let err = LexError::UnexpectedChar(Span { start: q, end: q + 1 });
                    proof {
                        assert(es@.insert(0, err) =~= seq![err] + es@);
                    }
                    es.insert(0, err);
                    (ts, es)
                },
            }
        }
    }
}

/// Tokenizes the whole source text: the spanned token sequence when the text
/// is clean, or every lexical error of the text (in source order) otherwise.
/// The outcome for every input is fixed by `sp_lex`.
pub fn lexer(src: &Vec<char>) -> (r: Result<Vec<(Token, Span)>, Vec<LexError>>)
    ensures
        match r {
            Ok(toks) => sp_lex(src@, 0, false).1.len() == 0 && toks_view(toks@) == sp_lex(src@, 0, false).0,
            Err(errs) => errs@.len() > 0 && errs@ == sp_lex(src@, 0, false).1,
        },
{
    let (ts, es) = lex_from(src, 0, false);
    if es.len() == 0 {
        Ok(ts)
    } else {
        Err(es)
    }
}

} // verus!
