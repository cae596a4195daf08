//! The grammar engine: turns native contract text into a concrete syntax
//! tree. Tokens first, then a recursive-descent pass in which each sub-term
//! position admits either its atoms or a single pair of parentheses around a
//! composite form — extra parentheses are a parse error, never recovered.

use vstd::prelude::*;
use crate::parsing::cst::{branch_v, leaf_v, lemma_views_of_push, node1, node2, node3,
    node4, node5, syntax_view, views_of, Rule, SyntaxNode, SyntaxNodeV};
use crate::parsing::numbers::{is_digit_char, string_chars};

verus! {

/// Where and why the text stopped parsing.
#[derive(Debug, Clone, Copy, PartialEq, Eq)]
pub struct ParseError {
    /// Character offset (for the tokenizer) or token index (for the parser).
    pub at: usize,
    /// What was expected at that point.
    pub expected: &'static str,
}

/// One token of the surface syntax.
#[derive(Debug, PartialEq, Eq)]
pub enum Token {
    LParen,
    RParen,
    LBracket,
    RBracket,
    Comma,
    Ident(String),
    Number(String),
    Quoted { inner: String, raw: String },
    Hole(String),
}

/// The view of a parse diagnostic: where, and what was expected.
pub struct ParseErrorV {
    pub at: int,
    pub expected: Seq<char>,
}

/// The view of a diagnostic.
pub open spec fn err_view(e: ParseError) -> ParseErrorV {
    ParseErrorV { at: e.at as int, expected: e.expected@ }
}

/// The view of one token.
pub enum TokenV {
    LParen,
    RParen,
    LBracket,
    RBracket,
    Comma,
    Ident(Seq<char>),
    Number(Seq<char>),
    Quoted { inner: Seq<char>, raw: Seq<char> },
    Hole(Seq<char>),
}

/// The view of one token.
pub open spec fn token_view(t: Token) -> TokenV {
    match t {
        Token::LParen => TokenV::LParen,
        Token::RParen => TokenV::RParen,
        Token::LBracket => TokenV::LBracket,
        Token::RBracket => TokenV::RBracket,
        Token::Comma => TokenV::Comma,
        Token::Ident(s) => TokenV::Ident(s@),
        Token::Number(s) => TokenV::Number(s@),
        Token::Quoted { inner, raw } => TokenV::Quoted { inner: inner@, raw: raw@ },
        Token::Hole(s) => TokenV::Hole(s@),
    }
}

/// The views of a token list, in order.
pub open spec fn tokens_view(ts: Seq<Token>) -> Seq<TokenV> {
    ts.map_values(|t: Token| token_view(t))
}

/// Is `c` whitespace between tokens?
pub open spec fn is_space_char(c: char) -> bool {
    c == ' ' || c == '\n' || c == '\t' || c == '\r'
}

/// May `c` stand inside a word (a keyword, a hole name)?
pub open spec fn is_word_char(c: char) -> bool {
    (97 <= c as u32 <= 122) || (65 <= c as u32 <= 90) || (48 <= c as u32 <= 57) || c as u32 == 95
}

/// Does `c` begin a word?
pub open spec fn is_alpha_char(c: char) -> bool {
    (97 <= c as u32 <= 122) || (65 <= c as u32 <= 90)
}

fn is_ident_char(c: char) -> (r: bool)
    ensures
        r == is_word_char(c),
{
    let u = c as u32;
    (97 <= u && u <= 122) || (65 <= u && u <= 90) || (48 <= u && u <= 57) || u == 95
}

fn is_digit(c: char) -> (r: bool)
    ensures
        r == is_digit_char(c),
{
    let u = c as u32;
    48 <= u && u <= 57
}

fn is_alpha(c: char) -> (r: bool)
    ensures
        r == is_alpha_char(c),
{
    let u = c as u32;
    (97 <= u && u <= 122) || (65 <= u && u <= 90)
}

/// The first position at or after `j` holding a double quote, or the length
/// when there is none.
pub open spec fn scan_quote(s: Seq<char>, j: int) -> int
    decreases s.len() - j,
{
    if j < 0 || j >= s.len() {
        s.len() as int
    } else if s[j] == '"' {
        j
    } else {
        scan_quote(s, j + 1)
    }
}

/// The first position at or after `j` holding a non-digit.
pub open spec fn scan_digits(s: Seq<char>, j: int) -> int
    decreases s.len() - j,
{
    if j < 0 || j >= s.len() || !is_digit_char(s[j]) {
        j
    } else {
        scan_digits(s, j + 1)
    }
}

/// The first position at or after `j` holding a non-word character.
pub open spec fn scan_word(s: Seq<char>, j: int) -> int
    decreases s.len() - j,
{
    if j < 0 || j >= s.len() || !is_word_char(s[j]) {
        j
    } else {
        scan_word(s, j + 1)
    }
}

proof fn lemma_scan_quote_bounds(s: Seq<char>, j: int)
    requires
        0 <= j <= s.len(),
    ensures
        j <= scan_quote(s, j) <= s.len(),
    decreases s.len() - j,
{
    if j < s.len() && s[j] != '"' {
        lemma_scan_quote_bounds(s, j + 1);
    }
}

proof fn lemma_scan_digits_bounds(s: Seq<char>, j: int)
    requires
        0 <= j <= s.len(),
    ensures
        j <= scan_digits(s, j) <= s.len(),
    decreases s.len() - j,
{
    if j < s.len() && is_digit_char(s[j]) {
        lemma_scan_digits_bounds(s, j + 1);
    }
}

proof fn lemma_scan_word_bounds(s: Seq<char>, j: int)
    requires
        0 <= j <= s.len(),
    ensures
        j <= scan_word(s, j) <= s.len(),
    decreases s.len() - j,
{
    if j < s.len() && is_word_char(s[j]) {
        lemma_scan_word_bounds(s, j + 1);
    }
}

/// Prepends a token to a tokenization that may have failed.
pub open spec fn lex_cons(t: TokenV, rest: Result<Seq<TokenV>, ParseErrorV>) -> Result<
    Seq<TokenV>,
    ParseErrorV,
> {
    match rest {
        Ok(r) => Ok(seq![t] + r),
        Err(e) => Err(e),
    }
}

/// Prepends already-taken tokens to a tokenization that may have failed.
pub open spec fn lex_append(prefix: Seq<TokenV>, rest: Result<Seq<TokenV>, ParseErrorV>) -> Result<
    Seq<TokenV>,
    ParseErrorV,
> {
    match rest {
        Ok(r) => Ok(prefix + r),
        Err(e) => Err(e),
    }
}

proof fn lemma_lex_append_push(
    prefix: Seq<TokenV>,
    t: TokenV,
    rest: Result<Seq<TokenV>, ParseErrorV>,
)
    ensures
        lex_append(prefix, lex_cons(t, rest)) == lex_append(prefix.push(t), rest),
{
    match rest {
        Ok(r) => {
            assert(prefix + (seq![t] + r) =~= prefix.push(t) + r);
        },
        Err(_) => {},
    }
}

proof fn lemma_tokens_view_push(ts: Seq<Token>, t: Token)
    ensures
        tokens_view(ts.push(t)) =~= tokens_view(ts).push(token_view(t)),
{
}

/// What tokenizing `s` from position `pos` yields: the token list, or the
/// first lexical error.
pub open spec fn lex_from(s: Seq<char>, pos: int) -> Result<Seq<TokenV>, ParseErrorV>
    decreases s.len() - pos,
    via lex_from_dec
{
    if pos < 0 || pos >= s.len() {
        Ok(Seq::empty())
    } else {
        let c = s[pos];
        if is_space_char(c) {
            lex_from(s, pos + 1)
        } else if c == '(' {
            lex_cons(TokenV::LParen, lex_from(s, pos + 1))
        } else if c == ')' {
            lex_cons(TokenV::RParen, lex_from(s, pos + 1))
        } else if c == '[' {
            lex_cons(TokenV::LBracket, lex_from(s, pos + 1))
        } else if c == ']' {
            lex_cons(TokenV::RBracket, lex_from(s, pos + 1))
        } else if c == ',' {
            lex_cons(TokenV::Comma, lex_from(s, pos + 1))
        } else if c == '"' {
            let j = scan_quote(s, pos + 1);
            if j >= s.len() {
                Err(ParseErrorV { at: pos, expected: "a closing double quote"@ })
            } else {
                lex_cons(
                    TokenV::Quoted { inner: s.subrange(pos + 1, j), raw: s.subrange(pos, j + 1) },
                    lex_from(s, j + 1),
                )
            }
        } else if c == '-' || is_digit_char(c) {
            let j0 = if c == '-' {
                pos + 1
            } else {
                pos
            };
            let j = scan_digits(s, j0);
            if j == j0 {
                Err(ParseErrorV { at: pos, expected: "digits after a minus sign"@ })
            } else {
                lex_cons(TokenV::Number(s.subrange(pos, j)), lex_from(s, j))
            }
        } else if c == '?' {
            let j = scan_word(s, pos + 1);
            if j == pos + 1 {
                Err(ParseErrorV { at: pos, expected: "a name after the hole marker"@ })
            } else {
                lex_cons(TokenV::Hole(s.subrange(pos + 1, j)), lex_from(s, j))
            }
        } else if is_alpha_char(c) {
            let j = scan_word(s, pos + 1);
            lex_cons(TokenV::Ident(s.subrange(pos, j)), lex_from(s, j))
        } else {
            Err(ParseErrorV { at: pos, expected: "a term, bracket, string or number"@ })
        }
    }
}

#[via_fn]
proof fn lex_from_dec(s: Seq<char>, pos: int) {
    if 0 <= pos && pos < s.len() {
        lemma_scan_quote_bounds(s, pos + 1);
        lemma_scan_digits_bounds(s, pos);
        lemma_scan_digits_bounds(s, pos + 1);
        lemma_scan_word_bounds(s, pos + 1);
    }
}

/// Splits the text into tokens, exactly as `lex_from` describes; whitespace
/// separates and is dropped.
pub fn lex(content: &str) -> (r: Result<Vec<Token>, ParseError>)
    ensures
        match (r, lex_from(content@, 0)) {
            (Ok(ts), Ok(tv)) => tokens_view(ts@) == tv,
            (Err(e), Err(ev)) => err_view(e) == ev,
            _ => false,
        },
{
    let cs = string_chars(content);
    let n = cs.len();
    let mut toks: Vec<Token> = Vec::new();
    let mut pos: usize = 0;
    proof {
        assert(tokens_view(toks@) =~= Seq::<TokenV>::empty());
        match lex_from(content@, 0) {
            Ok(r) => {
                assert(Seq::<TokenV>::empty() + r =~= r);
            },
            Err(_) => {},
        }
    }
    while pos < n
        invariant
            pos <= n,
            n == cs@.len(),
            cs@ == content@,
            lex_from(content@, 0) == lex_append(
                tokens_view(toks@),
                lex_from(content@, pos as int),
            ),
        decreases n - pos,
    {
        let ghost prefix = tokens_view(toks@);
        let c = cs[pos];
        if c == ' ' || c == '\n' || c == '\t' || c == '\r' {
            pos = pos + 1;
        } else if c == '(' {
            proof {
                lemma_lex_append_push(prefix, TokenV::LParen, lex_from(content@, pos as int + 1));
                lemma_tokens_view_push(toks@, Token::LParen);
            }
            toks.push(Token::LParen);
            pos = pos + 1;
        } else if c == ')' {
            proof {
                lemma_lex_append_push(prefix, TokenV::RParen, lex_from(content@, pos as int + 1));
                lemma_tokens_view_push(toks@, Token::RParen);
            }
            toks.push(Token::RParen);
            pos = pos + 1;
        } else if c == '[' {
            proof {
                lemma_lex_append_push(prefix, TokenV::LBracket, lex_from(content@, pos as int + 1));
                lemma_tokens_view_push(toks@, Token::LBracket);
            }
            toks.push(Token::LBracket);
            pos = pos + 1;
        } else if c == ']' {
            proof {
                lemma_lex_append_push(prefix, TokenV::RBracket, lex_from(content@, pos as int + 1));
                lemma_tokens_view_push(toks@, Token::RBracket);
            }
            toks.push(Token::RBracket);
            pos = pos + 1;
        } else if c == ',' {
            proof {
                lemma_lex_append_push(prefix, TokenV::Comma, lex_from(content@, pos as int + 1));
                lemma_tokens_view_push(toks@, Token::Comma);
            }
            toks.push(Token::Comma);
            pos = pos + 1;
        } else if c == '"' {
            let mut j: usize = pos + 1;
            while j < n && cs[j] != '"'
                invariant
                    pos + 1 <= j <= n,
                    n == cs@.len(),
                    cs@ == content@,
                    scan_quote(content@, pos as int + 1) == scan_quote(content@, j as int),
                decreases n - j,
            {
                j = j + 1;
            }
            if j == n {
                proof {
                    assert(scan_quote(content@, j as int) == content@.len());
                }
                return Err(ParseError { at: pos, expected: "a closing double quote" });
            }
            proof {
                assert(scan_quote(content@, j as int) == j);
            }
            let inner = String::from_str(content.substring_char(pos + 1, j));
            let raw = String::from_str(content.substring_char(pos, j + 1));
            let tok = Token::Quoted { inner, raw };
            proof {
                lemma_lex_append_push(prefix, token_view(tok), lex_from(content@, j as int + 1));
                lemma_tokens_view_push(toks@, tok);
            }
            toks.push(tok);
            pos = j + 1;
        } else if c == '-' || is_digit(c) {
            let mut j: usize = pos;
            if c == '-' {
                j = j + 1;
            }
            let digits_start = j;
            while j < n && is_digit(cs[j])
                invariant
                    digits_start <= j <= n,
                    n == cs@.len(),
                    cs@ == content@,
                    scan_digits(content@, digits_start as int) == scan_digits(content@, j as int),
                decreases n - j,
            {
                j = j + 1;
            }
            proof {
                assert(scan_digits(content@, j as int) == j);
            }
            if j == digits_start {
                return Err(ParseError { at: pos, expected: "digits after a minus sign" });
            }
            let tok = Token::Number(String::from_str(content.substring_char(pos, j)));
            proof {
                lemma_lex_append_push(prefix, token_view(tok), lex_from(content@, j as int));
                lemma_tokens_view_push(toks@, tok);
            }
            toks.push(tok);
            pos = j;
        } else if c == '?' {
            let mut j: usize = pos + 1;
            while j < n && is_ident_char(cs[j])
                invariant
                    pos + 1 <= j <= n,
                    n == cs@.len(),
                    cs@ == content@,
                    scan_word(content@, pos as int + 1) == scan_word(content@, j as int),
                decreases n - j,
            {
                j = j + 1;
            }
            proof {
                assert(scan_word(content@, j as int) == j);
            }
            if j == pos + 1 {
                return Err(ParseError { at: pos, expected: "a name after the hole marker" });
            }
            let tok = Token::Hole(String::from_str(content.substring_char(pos + 1, j)));
            proof {
                lemma_lex_append_push(prefix, token_view(tok), lex_from(content@, j as int));
                lemma_tokens_view_push(toks@, tok);
            }
            toks.push(tok);
            pos = j;
        } else if is_alpha(c) {
            let mut j: usize = pos;
            while j < n && is_ident_char(cs[j])
                invariant
                    pos <= j <= n,
                    n == cs@.len(),
                    cs@ == content@,
                    scan_word(content@, pos as int) == scan_word(content@, j as int),
                decreases n - j,
            {
                j = j + 1;
            }
            proof {
                assert(scan_word(content@, j as int) == j);
                assert(scan_word(content@, pos as int) == scan_word(content@, pos as int + 1));
            }
            let tok = Token::Ident(String::from_str(content.substring_char(pos, j)));
            proof {
                lemma_lex_append_push(prefix, token_view(tok), lex_from(content@, j as int));
                lemma_tokens_view_push(toks@, tok);
            }
            toks.push(tok);
            pos = j;
        } else {
            return Err(ParseError { at: pos, expected: "a term, bracket, string or number" });
        }
    }
    proof {
        assert(lex_from(content@, pos as int) == Ok::<Seq<TokenV>, ParseErrorV>(Seq::empty()));
        match lex_from(content@, 0) {
            Ok(tv) => {
                assert(tokens_view(toks@) + Seq::<TokenV>::empty() =~= tokens_view(toks@));
            },
            Err(_) => {},
        }
    }
    Ok(toks)
}

/// Does this string equal the keyword?
fn is_kw(s: &String, kw: &str) -> (r: bool)
    ensures
        r == (s@ == kw@),
{
    let k = String::from_str(kw);
    s.eq(&k)
}


// ---------------------------------------------------------------------------
// The grammar, as a specification
// ---------------------------------------------------------------------------

/// The position a sub-parse continues from. A parse always moves forward and
/// never past the end; the clamp keeps that manifest for the termination
/// checker, and is the identity on every reachable position.
pub open spec fn next_pos(toks: Seq<TokenV>, pos: int, p: int) -> int {
    if pos < p && p <= toks.len() {
        p
    } else {
        pos + 1
    }
}

/// A closing parenthesis at `pos`.
pub open spec fn rparen_spec(toks: Seq<TokenV>, pos: int) -> Result<int, ParseErrorV> {
    if 0 <= pos < toks.len() && toks[pos] is RParen {
        Ok(pos + 1)
    } else {
        Err(ParseErrorV { at: pos, expected: "a closing parenthesis"@ })
    }
}

/// A contract at the root of the input.
pub open spec fn contract_root_spec(toks: Seq<TokenV>, pos: int) -> Result<
    (SyntaxNodeV, int),
    ParseErrorV,
>
    decreases toks.len() - pos, 1int,
{
    if pos < 0 || pos >= toks.len() {
        Err(ParseErrorV { at: pos, expected: "a contract"@ })
    } else {
        match toks[pos] {
            TokenV::Ident(name) => {
                if name == "Close"@ {
                    Ok((leaf_v(Rule::Close, name), pos + 1))
                } else {
                    contract_comp_spec(toks, pos)
                }
            },
            TokenV::Hole(name) => Ok((leaf_v(Rule::ContractHole, name), pos + 1)),
            _ => Err(ParseErrorV { at: pos, expected: "a contract"@ }),
        }
    }
}

/// A composite contract form, keyword first.
pub open spec fn contract_comp_spec(toks: Seq<TokenV>, pos: int) -> Result<
    (SyntaxNodeV, int),
    ParseErrorV,
>
    decreases toks.len() - pos, 0int,
{
    if pos < 0 || pos >= toks.len() {
        Err(ParseErrorV { at: pos, expected: "a contract keyword"@ })
    } else {
        match toks[pos] {
            TokenV::Ident(name) => {
                if name == "When"@ {
                    match case_list_spec(toks, pos + 1) {
                        Err(e) => Err(e),
                        Ok((cases, p1)) => match timeout_arg_spec(toks, next_pos(toks, pos, p1)) {
                            Err(e) => Err(e),
                            Ok((timeout, p2)) => match contract_arg_spec(
                                toks,
                                next_pos(toks, pos, p2),
                            ) {
                                Err(e) => Err(e),
                                Ok((cont, p3)) => Ok(
                                    (branch_v(Rule::When, seq![cases, timeout, cont]), p3),
                                ),
                            },
                        },
                    }
                } else if name == "Pay"@ {
                    match party_arg_spec(toks, pos + 1) {
                        Err(e) => Err(e),
                        Ok((party, p1)) => match payee_arg_spec(toks, next_pos(toks, pos, p1)) {
                            Err(e) => Err(e),
                            Ok((payee, p2)) => match token_arg_spec(toks, next_pos(toks, pos, p2)) {
                                Err(e) => Err(e),
                                Ok((token, p3)) => match value_arg_spec(
                                    toks,
                                    next_pos(toks, pos, p3),
                                ) {
                                    Err(e) => Err(e),
                                    Ok((value, p4)) => match contract_arg_spec(
                                        toks,
                                        next_pos(toks, pos, p4),
                                    ) {
                                        Err(e) => Err(e),
                                        Ok((cont, p5)) => Ok(
                                            (
                                                branch_v(
                                                    Rule::Pay,
                                                    seq![party, payee, token, value, cont],
                                                ),
                                                p5,
                                            ),
                                        ),
                                    },
                                },
                            },
                        },
                    }
                } else if name == "If"@ {
                    match obs_arg_spec(toks, pos + 1) {
                        Err(e) => Err(e),
                        Ok((obs, p1)) => match contract_arg_spec(toks, next_pos(toks, pos, p1)) {
                            Err(e) => Err(e),
                            Ok((thn, p2)) => match contract_arg_spec(
                                toks,
                                next_pos(toks, pos, p2),
                            ) {
                                Err(e) => Err(e),
                                Ok((els, p3)) => Ok(
                                    (branch_v(Rule::If, seq![obs, thn, els]), p3),
                                ),
                            },
                        },
                    }
                } else if name == "Let"@ {
                    if pos + 1 >= toks.len() {
                        Err(ParseErrorV { at: pos + 1, expected: "a quoted name"@ })
                    } else {
                        match toks[pos + 1] {
                            TokenV::Quoted { inner, .. } => {
                                match value_arg_spec(toks, pos + 2) {
                                    Err(e) => Err(e),
                                    Ok((value, p2)) => match contract_arg_spec(
                                        toks,
                                        next_pos(toks, pos, p2),
                                    ) {
                                        Err(e) => Err(e),
                                        Ok((cont, p3)) => Ok(
                                            (
                                                branch_v(
                                                    Rule::Let,
                                                    seq![
                                                        leaf_v(Rule::StringLit, inner),
                                                        value,
                                                        cont,
                                                    ],
                                                ),
                                                p3,
                                            ),
                                        ),
                                    },
                                }
                            },
                            _ => Err(ParseErrorV { at: pos + 1, expected: "a quoted name"@ }),
                        }
                    }
                } else {
                    Err(ParseErrorV { at: pos, expected: "a contract keyword"@ })
                }
            },
            _ => Err(ParseErrorV { at: pos, expected: "a contract keyword"@ }),
        }
    }
}

/// A contract at an argument position.
pub open spec fn contract_arg_spec(toks: Seq<TokenV>, pos: int) -> Result<
    (SyntaxNodeV, int),
    ParseErrorV,
>
    decreases toks.len() - pos, 1int,
{
    if pos < 0 || pos >= toks.len() {
        Err(ParseErrorV { at: pos, expected: "a contract"@ })
    } else {
        match toks[pos] {
            TokenV::Ident(name) => {
                if name == "Close"@ {
                    Ok((leaf_v(Rule::Close, name), pos + 1))
                } else {
                    Err(ParseErrorV { at: pos, expected: "a contract"@ })
                }
            },
            TokenV::Hole(name) => Ok((leaf_v(Rule::ContractHole, name), pos + 1)),
            TokenV::LParen => {
                match contract_comp_spec(toks, pos + 1) {
                    Err(e) => Err(e),
                    Ok((node, p1)) => match rparen_spec(toks, next_pos(toks, pos, p1)) {
                        Err(e) => Err(e),
                        Ok(p2) => Ok((node, p2)),
                    },
                }
            },
            _ => Err(ParseErrorV { at: pos, expected: "a contract"@ }),
        }
    }
}

/// A bracketed, comma-separated list of cases.
pub open spec fn case_list_spec(toks: Seq<TokenV>, pos: int) -> Result<
    (SyntaxNodeV, int),
    ParseErrorV,
>
    decreases toks.len() - pos, 0int,
{
    if pos < 0 || pos >= toks.len() || !(toks[pos] is LBracket) {
        Err(ParseErrorV { at: pos, expected: "an opening bracket"@ })
    } else if pos + 1 < toks.len() && toks[pos + 1] is RBracket {
        Ok((branch_v(Rule::ArrayOfCases, Seq::empty()), pos + 2))
    } else {
        match case_items_spec(toks, pos + 1) {
            Err(e) => Err(e),
            Ok((items, p)) => Ok((branch_v(Rule::ArrayOfCases, items), p)),
        }
    }
}

/// One or more cases, comma-separated, up to the closing bracket.
pub open spec fn case_items_spec(toks: Seq<TokenV>, pos: int) -> Result<
    (Seq<SyntaxNodeV>, int),
    ParseErrorV,
>
    decreases toks.len() - pos, 1int,
{
    if pos < 0 || pos >= toks.len() {
        Err(ParseErrorV { at: pos, expected: "a case"@ })
    } else {
        match case_arg_spec(toks, pos) {
            Err(e) => Err(e),
            Ok((n, p)) => match case_sep_spec(toks, next_pos(toks, pos, p)) {
                Err(e) => Err(e),
                Ok((rest, p2)) => Ok((seq![n] + rest, p2)),
            },
        }
    }
}

/// After one case: a closing bracket ends the list, a comma continues it.
pub open spec fn case_sep_spec(toks: Seq<TokenV>, pos: int) -> Result<
    (Seq<SyntaxNodeV>, int),
    ParseErrorV,
>
    decreases toks.len() - pos, 0int,
{
    if pos < 0 || pos >= toks.len() {
        Err(ParseErrorV { at: pos, expected: "a comma or a closing bracket"@ })
    } else {
        match toks[pos] {
            TokenV::RBracket => Ok((Seq::empty(), pos + 1)),
            TokenV::Comma => case_items_spec(toks, pos + 1),
            _ => Err(ParseErrorV { at: pos, expected: "a comma or a closing bracket"@ }),
        }
    }
}

/// A bracketed, comma-separated list of bounds.
pub open spec fn bound_list_spec(toks: Seq<TokenV>, pos: int) -> Result<
    (SyntaxNodeV, int),
    ParseErrorV,
>
    decreases toks.len() - pos, 0int,
{
    if pos < 0 || pos >= toks.len() || !(toks[pos] is LBracket) {
        Err(ParseErrorV { at: pos, expected: "an opening bracket"@ })
    } else if pos + 1 < toks.len() && toks[pos + 1] is RBracket {
        Ok((branch_v(Rule::ArrayOfBounds, Seq::empty()), pos + 2))
    } else {
        match bound_items_spec(toks, pos + 1) {
            Err(e) => Err(e),
            Ok((items, p)) => Ok((branch_v(Rule::ArrayOfBounds, items), p)),
        }
    }
}

/// One or more bounds, comma-separated, up to the closing bracket.
pub open spec fn bound_items_spec(toks: Seq<TokenV>, pos: int) -> Result<
    (Seq<SyntaxNodeV>, int),
    ParseErrorV,
>
    decreases toks.len() - pos, 1int,
{
    if pos < 0 || pos >= toks.len() {
        Err(ParseErrorV { at: pos, expected: "a bound"@ })
    } else {
        match bound_arg_spec(toks, pos) {
            Err(e) => Err(e),
            Ok((n, p)) => match bound_sep_spec(toks, next_pos(toks, pos, p)) {
                Err(e) => Err(e),
                Ok((rest, p2)) => Ok((seq![n] + rest, p2)),
            },
        }
    }
}

/// After one bound: a closing bracket ends the list, a comma continues it.
pub open spec fn bound_sep_spec(toks: Seq<TokenV>, pos: int) -> Result<
    (Seq<SyntaxNodeV>, int),
    ParseErrorV,
>
    decreases toks.len() - pos, 0int,
{
    if pos < 0 || pos >= toks.len() {
        Err(ParseErrorV { at: pos, expected: "a comma or a closing bracket"@ })
    } else {
        match toks[pos] {
            TokenV::RBracket => Ok((Seq::empty(), pos + 1)),
            TokenV::Comma => bound_items_spec(toks, pos + 1),
            _ => Err(ParseErrorV { at: pos, expected: "a comma or a closing bracket"@ }),
        }
    }
}

/// One bound: a hole, or `(Bound low high)`.
pub open spec fn bound_arg_spec(toks: Seq<TokenV>, pos: int) -> Result<
    (SyntaxNodeV, int),
    ParseErrorV,
>
    decreases toks.len() - pos, 0int,
{
    if pos < 0 || pos >= toks.len() {
        Err(ParseErrorV { at: pos, expected: "a bound"@ })
    } else {
        match toks[pos] {
            TokenV::Hole(name) => Ok((leaf_v(Rule::BoundHole, name), pos + 1)),
            TokenV::LParen => {
                if pos + 1 >= toks.len() || !(toks[pos + 1] matches TokenV::Ident(k) && k
                    == "Bound"@) {
                    Err(ParseErrorV { at: pos + 1, expected: "the Bound keyword"@ })
                } else if pos + 2 >= toks.len() || !(toks[pos + 2] is Number) {
                    Err(ParseErrorV { at: pos + 2, expected: "a number"@ })
                } else if pos + 3 >= toks.len() || !(toks[pos + 3] is Number) {
                    Err(ParseErrorV { at: pos + 3, expected: "a number"@ })
                } else {
                    match (toks[pos + 2], toks[pos + 3]) {
                        (TokenV::Number(lo), TokenV::Number(hi)) => {
                            match rparen_spec(toks, pos + 4) {
                                Err(e) => Err(e),
                                Ok(p1) => Ok(
                                    (
                                        branch_v(
                                            Rule::Bound,
                                            seq![
                                                leaf_v(Rule::Number, lo),
                                                leaf_v(Rule::Number, hi),
                                            ],
                                        ),
                                        p1,
                                    ),
                                ),
                            }
                        },
                        _ => Err(ParseErrorV { at: pos + 2, expected: "a number"@ }),
                    }
                }
            },
            _ => Err(ParseErrorV { at: pos, expected: "a bound"@ }),
        }
    }
}

/// One case: a hole, or `(Case action contract)`.
pub open spec fn case_arg_spec(toks: Seq<TokenV>, pos: int) -> Result<
    (SyntaxNodeV, int),
    ParseErrorV,
>
    decreases toks.len() - pos, 0int,
{
    if pos < 0 || pos >= toks.len() {
        Err(ParseErrorV { at: pos, expected: "a case"@ })
    } else {
        match toks[pos] {
            TokenV::Hole(name) => Ok((leaf_v(Rule::CaseHole, name), pos + 1)),
            TokenV::LParen => {
                if pos + 1 >= toks.len() || !(toks[pos + 1] matches TokenV::Ident(k) && k
                    == "Case"@) {
                    Err(ParseErrorV { at: pos + 1, expected: "the Case keyword"@ })
                } else {
                    match action_arg_spec(toks, pos + 2) {
                        Err(e) => Err(e),
                        Ok((action, p1)) => match contract_arg_spec(
                            toks,
                            next_pos(toks, pos, p1),
                        ) {
                            Err(e) => Err(e),
                            Ok((cont, p2)) => match rparen_spec(toks, next_pos(toks, pos, p2)) {
                                Err(e) => Err(e),
                                Ok(p3) => Ok((branch_v(Rule::Case, seq![action, cont]), p3)),
                            },
                        },
                    }
                }
            },
            _ => Err(ParseErrorV { at: pos, expected: "a case"@ }),
        }
    }
}

/// One action: a hole, or a parenthesized `Deposit`, `Choice` or `Notify`.
pub open spec fn action_arg_spec(toks: Seq<TokenV>, pos: int) -> Result<
    (SyntaxNodeV, int),
    ParseErrorV,
>
    decreases toks.len() - pos, 0int,
{
    if pos < 0 || pos >= toks.len() {
        Err(ParseErrorV { at: pos, expected: "an action"@ })
    } else {
        match toks[pos] {
            TokenV::Hole(name) => Ok((leaf_v(Rule::ActionHole, name), pos + 1)),
            TokenV::LParen => {
                if pos + 1 >= toks.len() {
                    Err(ParseErrorV { at: pos + 1, expected: "an action keyword"@ })
                } else {
                    match toks[pos + 1] {
                        TokenV::Ident(name) => {
                            if name == "Deposit"@ {
                                match party_arg_spec(toks, pos + 2) {
                                    Err(e) => Err(e),
                                    Ok((acc, p1)) => match party_arg_spec(
                                        toks,
                                        next_pos(toks, pos, p1),
                                    ) {
                                        Err(e) => Err(e),
                                        Ok((party, p2)) => match token_arg_spec(
                                            toks,
                                            next_pos(toks, pos, p2),
                                        ) {
                                            Err(e) => Err(e),
                                            Ok((token, p3)) => match value_arg_spec(
                                                toks,
                                                next_pos(toks, pos, p3),
                                            ) {
                                                Err(e) => Err(e),
                                                Ok((value, p4)) => match rparen_spec(
                                                    toks,
                                                    next_pos(toks, pos, p4),
                                                ) {
                                                    Err(e) => Err(e),
                                                    Ok(p5) => Ok(
                                                        (
                                                            branch_v(
                                                                Rule::Deposit,
                                                                seq![acc, party, token, value],
                                                            ),
                                                            p5,
                                                        ),
                                                    ),
                                                },
                                            },
                                        },
                                    },
                                }
                            } else if name == "Choice"@ {
                                match choice_id_arg_spec(toks, pos + 2) {
                                    Err(e) => Err(e),
                                    Ok((cid, p1)) => match bound_list_spec(
                                        toks,
                                        next_pos(toks, pos, p1),
                                    ) {
                                        Err(e) => Err(e),
                                        Ok((bounds, p2)) => match rparen_spec(
                                            toks,
                                            next_pos(toks, pos, p2),
                                        ) {
                                            Err(e) => Err(e),
                                            Ok(p3) => Ok(
                                                (branch_v(Rule::Choice, seq![cid, bounds]), p3),
                                            ),
                                        },
                                    },
                                }
                            } else if name == "Notify"@ {
                                match obs_arg_spec(toks, pos + 2) {
                                    Err(e) => Err(e),
                                    Ok((obs, p1)) => match rparen_spec(
                                        toks,
                                        next_pos(toks, pos, p1),
                                    ) {
                                        Err(e) => Err(e),
                                        Ok(p2) => Ok((branch_v(Rule::Notify, seq![obs]), p2)),
                                    },
                                }
                            } else {
                                Err(ParseErrorV { at: pos + 1, expected: "an action keyword"@ })
                            }
                        },
                        _ => Err(ParseErrorV { at: pos + 1, expected: "an action keyword"@ }),
                    }
                }
            },
            _ => Err(ParseErrorV { at: pos, expected: "an action"@ }),
        }
    }
}

/// One observation: atoms, a hole, or a parenthesized comparison.
pub open spec fn obs_arg_spec(toks: Seq<TokenV>, pos: int) -> Result<
    (SyntaxNodeV, int),
    ParseErrorV,
>
    decreases toks.len() - pos, 0int,
{
    if pos < 0 || pos >= toks.len() {
        Err(ParseErrorV { at: pos, expected: "an observation"@ })
    } else {
        match toks[pos] {
            TokenV::Ident(name) => {
                if name == "TrueObs"@ {
                    Ok((leaf_v(Rule::TrueObs, name), pos + 1))
                } else if name == "FalseObs"@ {
                    Ok((leaf_v(Rule::FalseObs, name), pos + 1))
                } else {
                    Err(ParseErrorV { at: pos, expected: "an observation"@ })
                }
            },
            TokenV::Hole(name) => Ok((leaf_v(Rule::ObservationHole, name), pos + 1)),
            TokenV::LParen => {
                if pos + 1 >= toks.len() {
                    Err(ParseErrorV { at: pos + 1, expected: "a comparison keyword"@ })
                } else {
                    match toks[pos + 1] {
                        TokenV::Ident(name) => {
                            let rule = if name == "ValueGT"@ {
                                Rule::ValueGT
                            } else if name == "ValueGE"@ {
                                Rule::ValueGE
                            } else {
                                Rule::ValueLT
                            };
                            if name == "ValueGT"@ || name == "ValueGE"@ || name == "ValueLT"@ {
                                match value_arg_spec(toks, pos + 2) {
                                    Err(e) => Err(e),
                                    Ok((v1, p1)) => match value_arg_spec(
                                        toks,
                                        next_pos(toks, pos, p1),
                                    ) {
                                        Err(e) => Err(e),
                                        Ok((v2, p2)) => match rparen_spec(
                                            toks,
                                            next_pos(toks, pos, p2),
                                        ) {
                                            Err(e) => Err(e),
                                            Ok(p3) => Ok((branch_v(rule, seq![v1, v2]), p3)),
                                        },
                                    },
                                }
                            } else {
                                Err(
                                    ParseErrorV { at: pos + 1, expected: "a comparison keyword"@ },
                                )
                            }
                        },
                        _ => Err(ParseErrorV { at: pos + 1, expected: "a comparison keyword"@ }),
                    }
                }
            },
            _ => Err(ParseErrorV { at: pos, expected: "an observation"@ }),
        }
    }
}

/// One party: a hole, or `(PK "...")` / `(Role "...")`.
pub open spec fn party_arg_spec(toks: Seq<TokenV>, pos: int) -> Result<
    (SyntaxNodeV, int),
    ParseErrorV,
>
    decreases toks.len() - pos, 0int,
{
    if pos < 0 || pos >= toks.len() {
        Err(ParseErrorV { at: pos, expected: "a party"@ })
    } else {
        match toks[pos] {
            TokenV::Hole(name) => Ok((leaf_v(Rule::PartyHole, name), pos + 1)),
            TokenV::LParen => {
                if pos + 1 >= toks.len() {
                    Err(ParseErrorV { at: pos + 1, expected: "a party keyword"@ })
                } else {
                    match toks[pos + 1] {
                        TokenV::Ident(name) => {
                            if name == "PK"@ {
                                if pos + 2 >= toks.len() {
                                    Err(ParseErrorV { at: pos + 2, expected: "a quoted key hash"@ })
                                } else {
                                    match toks[pos + 2] {
                                        TokenV::Quoted { raw, .. } => {
                                            match rparen_spec(toks, pos + 3) {
                                                Err(e) => Err(e),
                                                Ok(p1) => Ok(
                                                    (
                                                        branch_v(
                                                            Rule::PK,
                                                            seq![leaf_v(Rule::PubKey, raw)],
                                                        ),
                                                        p1,
                                                    ),
                                                ),
                                            }
                                        },
                                        _ => Err(
                                            ParseErrorV {
                                                at: pos + 2,
                                                expected: "a quoted key hash"@,
                                            },
                                        ),
                                    }
                                }
                            } else if name == "Role"@ {
                                if pos + 2 >= toks.len() {
                                    Err(
                                        ParseErrorV {
                                            at: pos + 2,
                                            expected: "a quoted role name"@,
                                        },
                                    )
                                } else {
                                    match toks[pos + 2] {
                                        TokenV::Quoted { inner, .. } => {
                                            match rparen_spec(toks, pos + 3) {
                                                Err(e) => Err(e),
                                                Ok(p1) => Ok(
                                                    (
                                                        branch_v(
                                                            Rule::Role,
                                                            seq![leaf_v(Rule::StringLit, inner)],
                                                        ),
                                                        p1,
                                                    ),
                                                ),
                                            }
                                        },
                                        _ => Err(
                                            ParseErrorV {
                                                at: pos + 2,
                                                expected: "a quoted role name"@,
                                            },
                                        ),
                                    }
                                }
                            } else {
                                Err(ParseErrorV { at: pos + 1, expected: "a party keyword"@ })
                            }
                        },
                        _ => Err(ParseErrorV { at: pos + 1, expected: "a party keyword"@ }),
                    }
                }
            },
            _ => Err(ParseErrorV { at: pos, expected: "a party"@ }),
        }
    }
}

/// One payee: a hole, or `(Account party)` / `(Party party)`.
pub open spec fn payee_arg_spec(toks: Seq<TokenV>, pos: int) -> Result<
    (SyntaxNodeV, int),
    ParseErrorV,
>
    decreases toks.len() - pos, 0int,
{
    if pos < 0 || pos >= toks.len() {
        Err(ParseErrorV { at: pos, expected: "a payee"@ })
    } else {
        match toks[pos] {
            TokenV::Hole(name) => Ok((leaf_v(Rule::PayeeHole, name), pos + 1)),
            TokenV::LParen => {
                if pos + 1 >= toks.len() {
                    Err(ParseErrorV { at: pos + 1, expected: "a payee keyword"@ })
                } else {
                    match toks[pos + 1] {
                        TokenV::Ident(name) => {
                            let rule = if name == "Account"@ {
                                Rule::PayeeAccount
                            } else {
                                Rule::PayeeParty
                            };
                            if name == "Account"@ || name == "Party"@ {
                                match party_arg_spec(toks, pos + 2) {
                                    Err(e) => Err(e),
                                    Ok((party, p1)) => match rparen_spec(
                                        toks,
                                        next_pos(toks, pos, p1),
                                    ) {
                                        Err(e) => Err(e),
                                        Ok(p2) => Ok((branch_v(rule, seq![party]), p2)),
                                    },
                                }
                            } else {
                                Err(ParseErrorV { at: pos + 1, expected: "a payee keyword"@ })
                            }
                        },
                        _ => Err(ParseErrorV { at: pos + 1, expected: "a payee keyword"@ }),
                    }
                }
            },
            _ => Err(ParseErrorV { at: pos, expected: "a payee"@ }),
        }
    }
}

/// One token: a hole, or `(Token "symbol" "name")`.
pub open spec fn token_arg_spec(toks: Seq<TokenV>, pos: int) -> Result<
    (SyntaxNodeV, int),
    ParseErrorV,
>
    decreases toks.len() - pos, 0int,
{
    if pos < 0 || pos >= toks.len() {
        Err(ParseErrorV { at: pos, expected: "a token"@ })
    } else {
        match toks[pos] {
            TokenV::Hole(name) => Ok((leaf_v(Rule::TokenHole, name), pos + 1)),
            TokenV::LParen => {
                if pos + 1 >= toks.len() || !(toks[pos + 1] matches TokenV::Ident(k) && k
                    == "Token"@) {
                    Err(ParseErrorV { at: pos + 1, expected: "the Token keyword"@ })
                } else if pos + 2 >= toks.len() || !(toks[pos + 2] is Quoted) {
                    Err(ParseErrorV { at: pos + 2, expected: "a quoted currency symbol"@ })
                } else if pos + 3 >= toks.len() || !(toks[pos + 3] is Quoted) {
                    Err(ParseErrorV { at: pos + 3, expected: "a quoted token name"@ })
                } else {
                    match (toks[pos + 2], toks[pos + 3]) {
                        (
                            TokenV::Quoted { inner: symbol, .. },
                            TokenV::Quoted { inner: tname, .. },
                        ) => {
                            match rparen_spec(toks, pos + 4) {
                                Err(e) => Err(e),
                                Ok(p1) => if symbol.len() == 0 && tname.len() == 0 {
                                    Ok((leaf_v(Rule::ADA, symbol), p1))
                                } else {
                                    Ok(
                                        (
                                            branch_v(
                                                Rule::Currency,
                                                seq![
                                                    leaf_v(Rule::StringLit, symbol),
                                                    leaf_v(Rule::StringLit, tname),
                                                ],
                                            ),
                                            p1,
                                        ),
                                    )
                                },
                            }
                        },
                        _ => Err(ParseErrorV { at: pos + 2, expected: "a quoted currency symbol"@ }),
                    }
                }
            },
            _ => Err(ParseErrorV { at: pos, expected: "a token"@ }),
        }
    }
}

/// One timeout: a literal number, a hole, or `(TimeParam "...")`.
pub open spec fn timeout_arg_spec(toks: Seq<TokenV>, pos: int) -> Result<
    (SyntaxNodeV, int),
    ParseErrorV,
>
    decreases toks.len() - pos, 0int,
{
    if pos < 0 || pos >= toks.len() {
        Err(ParseErrorV { at: pos, expected: "a timeout"@ })
    } else {
        match toks[pos] {
            TokenV::Number(text) => Ok((leaf_v(Rule::TimeConstant, text), pos + 1)),
            TokenV::Hole(name) => Ok((leaf_v(Rule::TimeoutHole, name), pos + 1)),
            TokenV::LParen => {
                if pos + 1 >= toks.len() || !(toks[pos + 1] matches TokenV::Ident(k) && k
                    == "TimeParam"@) {
                    Err(ParseErrorV { at: pos + 1, expected: "the TimeParam keyword"@ })
                } else if pos + 2 >= toks.len() || !(toks[pos + 2] is Quoted) {
                    Err(ParseErrorV { at: pos + 2, expected: "a quoted parameter name"@ })
                } else {
                    match toks[pos + 2] {
                        TokenV::Quoted { inner, .. } => {
                            match rparen_spec(toks, pos + 3) {
                                Err(e) => Err(e),
                                Ok(p1) => Ok(
                                    (
                                        branch_v(
                                            Rule::TimeParam,
                                            seq![leaf_v(Rule::StringLit, inner)],
                                        ),
                                        p1,
                                    ),
                                ),
                            }
                        },
                        _ => Err(ParseErrorV { at: pos + 2, expected: "a quoted parameter name"@ }),
                    }
                }
            },
            _ => Err(ParseErrorV { at: pos, expected: "a timeout"@ }),
        }
    }
}

/// One choice identifier: `(ChoiceId "name" party)`.
pub open spec fn choice_id_arg_spec(toks: Seq<TokenV>, pos: int) -> Result<
    (SyntaxNodeV, int),
    ParseErrorV,
>
    decreases toks.len() - pos, 0int,
{
    if pos < 0 || pos >= toks.len() || !(toks[pos] is LParen) {
        Err(ParseErrorV { at: pos, expected: "a choice identifier"@ })
    } else if pos + 1 >= toks.len() || !(toks[pos + 1] matches TokenV::Ident(k) && k
        == "ChoiceId"@) {
        Err(ParseErrorV { at: pos + 1, expected: "the ChoiceId keyword"@ })
    } else if pos + 2 >= toks.len() || !(toks[pos + 2] is Quoted) {
        Err(ParseErrorV { at: pos + 2, expected: "a quoted choice name"@ })
    } else {
        match toks[pos + 2] {
            TokenV::Quoted { inner, .. } => {
                match party_arg_spec(toks, pos + 3) {
                    Err(e) => Err(e),
                    Ok((party, p1)) => match rparen_spec(toks, next_pos(toks, pos, p1)) {
                        Err(e) => Err(e),
                        Ok(p2) => Ok(
                            (
                                branch_v(
                                    Rule::ChoiceId,
                                    seq![leaf_v(Rule::StringLit, inner), party],
                                ),
                                p2,
                            ),
                        ),
                    },
                }
            },
            _ => Err(ParseErrorV { at: pos + 2, expected: "a quoted choice name"@ }),
        }
    }
}

/// One value: interval atoms, a hole, or a parenthesized composite form.
pub open spec fn value_arg_spec(toks: Seq<TokenV>, pos: int) -> Result<
    (SyntaxNodeV, int),
    ParseErrorV,
>
    decreases toks.len() - pos, 1int,
{
    if pos < 0 || pos >= toks.len() {
        Err(ParseErrorV { at: pos, expected: "a value"@ })
    } else {
        match toks[pos] {
            TokenV::Ident(name) => {
                if name == "TimeIntervalStart"@ {
                    Ok((leaf_v(Rule::TimeIntervalStart, name), pos + 1))
                } else if name == "TimeIntervalEnd"@ {
                    Ok((leaf_v(Rule::TimeIntervalEnd, name), pos + 1))
                } else {
                    Err(ParseErrorV { at: pos, expected: "a value"@ })
                }
            },
            TokenV::Hole(name) => Ok((leaf_v(Rule::ValueHole, name), pos + 1)),
            TokenV::LParen => {
                if pos + 1 >= toks.len() {
                    Err(ParseErrorV { at: pos + 1, expected: "a value keyword"@ })
                } else {
                    match toks[pos + 1] {
                        TokenV::Ident(name) => value_comp_spec(toks, pos, name),
                        _ => Err(ParseErrorV { at: pos + 1, expected: "a value keyword"@ }),
                    }
                }
            },
            _ => Err(ParseErrorV { at: pos, expected: "a value"@ }),
        }
    }
}

/// The parenthesized value forms; `pos` is the opening parenthesis and
/// `name` the keyword just after it.
pub open spec fn value_comp_spec(toks: Seq<TokenV>, pos: int, name: Seq<char>) -> Result<
    (SyntaxNodeV, int),
    ParseErrorV,
>
    decreases toks.len() - pos, 0int,
{
    if pos < 0 || pos + 1 >= toks.len() {
        Err(ParseErrorV { at: pos + 1, expected: "a value keyword"@ })
    } else if name == "Constant"@ {
        if pos + 2 >= toks.len() || !(toks[pos + 2] is Number) {
            Err(ParseErrorV { at: pos + 2, expected: "a number"@ })
        } else {
            match toks[pos + 2] {
                TokenV::Number(text) => {
                    match rparen_spec(toks, pos + 3) {
                        Err(e) => Err(e),
                        Ok(p1) => Ok(
                            (branch_v(Rule::Constant, seq![leaf_v(Rule::Number, text)]), p1),
                        ),
                    }
                },
                _ => Err(ParseErrorV { at: pos + 2, expected: "a number"@ }),
            }
        }
    } else if name == "ConstantParam"@ || name == "UseValue"@ {
        let rule = if name == "ConstantParam"@ {
            Rule::ConstantParam
        } else {
            Rule::UseValue
        };
        if pos + 2 >= toks.len() || !(toks[pos + 2] is Quoted) {
            Err(ParseErrorV { at: pos + 2, expected: "a quoted name"@ })
        } else {
            match toks[pos + 2] {
                TokenV::Quoted { inner, .. } => {
                    match rparen_spec(toks, pos + 3) {
                        Err(e) => Err(e),
                        Ok(p1) => Ok((branch_v(rule, seq![leaf_v(Rule::StringLit, inner)]), p1)),
                    }
                },
                _ => Err(ParseErrorV { at: pos + 2, expected: "a quoted name"@ }),
            }
        }
    } else if name == "AvailableMoney"@ {
        match party_arg_spec(toks, pos + 2) {
            Err(e) => Err(e),
            Ok((party, p1)) => match token_arg_spec(toks, next_pos(toks, pos, p1)) {
                Err(e) => Err(e),
                Ok((token, p2)) => match rparen_spec(toks, next_pos(toks, pos, p2)) {
                    Err(e) => Err(e),
                    Ok(p3) => Ok((branch_v(Rule::AvailableMoney, seq![party, token]), p3)),
                },
            },
        }
    } else if name == "AddValue"@ || name == "SubValue"@ || name == "MulValue"@ || name
        == "DivValue"@ {
        let rule = if name == "AddValue"@ {
            Rule::AddValue
        } else if name == "SubValue"@ {
            Rule::SubValue
        } else if name == "MulValue"@ {
            Rule::MulValue
        } else {
            Rule::DivValue
        };
        match value_arg_spec(toks, pos + 2) {
            Err(e) => Err(e),
            Ok((v1, p1)) => match value_arg_spec(toks, next_pos(toks, pos, p1)) {
                Err(e) => Err(e),
                Ok((v2, p2)) => match rparen_spec(toks, next_pos(toks, pos, p2)) {
                    Err(e) => Err(e),
                    Ok(p3) => Ok((branch_v(rule, seq![v1, v2]), p3)),
                },
            },
        }
    } else if name == "NegValue"@ {
        match value_arg_spec(toks, pos + 2) {
            Err(e) => Err(e),
            Ok((v1, p1)) => match rparen_spec(toks, next_pos(toks, pos, p1)) {
                Err(e) => Err(e),
                Ok(p2) => Ok((branch_v(Rule::NegValue, seq![v1]), p2)),
            },
        }
    } else if name == "ChoiceValue"@ {
        match choice_id_arg_spec(toks, pos + 2) {
            Err(e) => Err(e),
            Ok((cid, p1)) => match rparen_spec(toks, next_pos(toks, pos, p1)) {
                Err(e) => Err(e),
                Ok(p2) => Ok((branch_v(Rule::ChoiceValue, seq![cid]), p2)),
            },
        }
    } else if name == "Cond"@ {
        match obs_arg_spec(toks, pos + 2) {
            Err(e) => Err(e),
            Ok((obs, p1)) => match value_arg_spec(toks, next_pos(toks, pos, p1)) {
                Err(e) => Err(e),
                Ok((v1, p2)) => match value_arg_spec(toks, next_pos(toks, pos, p2)) {
                    Err(e) => Err(e),
                    Ok((v2, p3)) => match rparen_spec(toks, next_pos(toks, pos, p3)) {
                        Err(e) => Err(e),
                        Ok(p4) => Ok((branch_v(Rule::Cond, seq![obs, v1, v2]), p4)),
                    },
                },
            },
        }
    } else {
        Err(ParseErrorV { at: pos + 1, expected: "a value keyword"@ })
    }
}

/// What parsing the whole text yields: the tokens, one contract, and the end
/// of the input.
pub open spec fn parse_text_spec(s: Seq<char>) -> Result<SyntaxNodeV, ParseErrorV> {
    match lex_from(s, 0) {
        Err(e) => Err(e),
        Ok(toks) => match contract_root_spec(toks, 0) {
            Err(e) => Err(e),
            Ok((node, end)) => if end != toks.len() {
                Err(ParseErrorV { at: end, expected: "the end of the input"@ })
            } else {
                Ok(node)
            },
        },
    }
}

/// Requires a closing parenthesis at `pos`.
fn expect_rparen(toks: &Vec<Token>, pos: usize) -> (r: Result<usize, ParseError>)
    ensures
        match r {
            Ok(np) => pos < np <= toks@.len(),
            Err(_) => true,
        },
        match (r, rparen_spec(tokens_view(toks@), pos as int)) {
            (Ok(p), Ok(pv)) => p as int == pv,
            (Err(e), Err(ev)) => err_view(e) == ev,
            _ => false,
        },
{
    if pos < toks.len() {
        match &toks[pos] {
            Token::RParen => Ok(pos + 1),
            _ => Err(ParseError { at: pos, expected: "a closing parenthesis" }),
        }
    } else {
        Err(ParseError { at: pos, expected: "a closing parenthesis" })
    }
}

/// A contract at the root of the input: an atom, or a composite form
/// without surrounding parentheses.
#[verifier::rlimit(100)]
#[verifier::spinoff_prover]
pub fn parse_contract_root(toks: &Vec<Token>, pos: usize) -> (r: Result<
    (SyntaxNode, usize),
    ParseError,
>)
    ensures
        match r {
            Ok(v) => pos < v.1 <= toks@.len(),
            Err(_) => true,
        },
        match (r, contract_root_spec(tokens_view(toks@), pos as int)) {
            (Ok(v), Ok(sv)) => syntax_view(v.0) == sv.0 && v.1 as int == sv.1,
            (Err(e), Err(ev)) => err_view(e) == ev,
            _ => false,
        },
    decreases toks@.len() - pos, 1int,
{
    if pos >= toks.len() {
        return Err(ParseError { at: pos, expected: "a contract" });
    }
    match &toks[pos] {
        Token::Ident(name) => {
            if is_kw(name, "Close") {
                Ok((SyntaxNode::leaf(Rule::Close, name.clone()), pos + 1))
            } else {
                parse_contract_comp(toks, pos)
            }
        },
        Token::Hole(name) => Ok((SyntaxNode::leaf(Rule::ContractHole, name.clone()), pos + 1)),
        _ => Err(ParseError { at: pos, expected: "a contract" }),
    }
}

/// A composite contract form, keyword first: `When`, `Pay`, `If` or `Let`.
#[verifier::rlimit(100)]
#[verifier::spinoff_prover]
fn parse_contract_comp(toks: &Vec<Token>, pos: usize) -> (r: Result<
    (SyntaxNode, usize),
    ParseError,
>)
    ensures
        match r {
            Ok(v) => pos < v.1 <= toks@.len(),
            Err(_) => true,
        },
        match (r, contract_comp_spec(tokens_view(toks@), pos as int)) {
            (Ok(v), Ok(sv)) => syntax_view(v.0) == sv.0 && v.1 as int == sv.1,
            (Err(e), Err(ev)) => err_view(e) == ev,
            _ => false,
        },
    decreases toks@.len() - pos, 0int,
{
    if pos >= toks.len() {
        return Err(ParseError { at: pos, expected: "a contract keyword" });
    }
    match &toks[pos] {
        Token::Ident(name) => {
            if is_kw(name, "When") {
                let (cases, p1) = parse_case_list(toks, pos + 1)?;
                let (timeout, p2) = parse_timeout_arg(toks, p1)?;
                let (cont, p3) = parse_contract_arg(toks, p2)?;
                                Ok((node3(Rule::When, cases, timeout, cont), p3))
            } else if is_kw(name, "Pay") {
                let (party, p1) = parse_party_arg(toks, pos + 1)?;
                let (payee, p2) = parse_payee_arg(toks, p1)?;
                let (token, p3) = parse_token_arg(toks, p2)?;
                let (value, p4) = parse_value_arg(toks, p3)?;
                let (cont, p5) = parse_contract_arg(toks, p4)?;
                                Ok((node5(Rule::Pay, party, payee, token, value, cont), p5))
            } else if is_kw(name, "If") {
                let (obs, p1) = parse_obs_arg(toks, pos + 1)?;
                let (thn, p2) = parse_contract_arg(toks, p1)?;
                let (els, p3) = parse_contract_arg(toks, p2)?;
                                Ok((node3(Rule::If, obs, thn, els), p3))
            } else if is_kw(name, "Let") {
                if pos + 1 >= toks.len() {
                    return Err(ParseError { at: pos + 1, expected: "a quoted name" });
                }
                let lname = match &toks[pos + 1] {
                    Token::Quoted { inner, .. } => SyntaxNode::leaf(Rule::StringLit, inner.clone()),
                    _ => {
                        return Err(ParseError { at: pos + 1, expected: "a quoted name" });
                    },
                };
                let (value, p2) = parse_value_arg(toks, pos + 2)?;
                let (cont, p3) = parse_contract_arg(toks, p2)?;
                                Ok((node3(Rule::Let, lname, value, cont), p3))
            } else {
                Err(ParseError { at: pos, expected: "a contract keyword" })
            }
        },
        _ => Err(ParseError { at: pos, expected: "a contract keyword" }),
    }
}

/// A contract at an argument position: `Close`, a hole, or a parenthesized
/// composite form.
#[verifier::rlimit(100)]
#[verifier::spinoff_prover]
fn parse_contract_arg(toks: &Vec<Token>, pos: usize) -> (r: Result<
    (SyntaxNode, usize),
    ParseError,
>)
    ensures
        match r {
            Ok(v) => pos < v.1 <= toks@.len(),
            Err(_) => true,
        },
        match (r, contract_arg_spec(tokens_view(toks@), pos as int)) {
            (Ok(v), Ok(sv)) => syntax_view(v.0) == sv.0 && v.1 as int == sv.1,
            (Err(e), Err(ev)) => err_view(e) == ev,
            _ => false,
        },
    decreases toks@.len() - pos, 1int,
{
    if pos >= toks.len() {
        return Err(ParseError { at: pos, expected: "a contract" });
    }
    match &toks[pos] {
        Token::Ident(name) => {
            if is_kw(name, "Close") {
                Ok((SyntaxNode::leaf(Rule::Close, name.clone()), pos + 1))
            } else {
                Err(ParseError { at: pos, expected: "a contract" })
            }
        },
        Token::Hole(name) => Ok((SyntaxNode::leaf(Rule::ContractHole, name.clone()), pos + 1)),
        Token::LParen => {
            let (node, p1) = parse_contract_comp(toks, pos + 1)?;
            let p2 = expect_rparen(toks, p1)?;
            Ok((node, p2))
        },
        _ => Err(ParseError { at: pos, expected: "a contract" }),
    }
}

/// A bracketed, comma-separated list of cases.
#[verifier::rlimit(100)]
#[verifier::spinoff_prover]
#[verifier::loop_isolation(false)]
fn parse_case_list(toks: &Vec<Token>, pos: usize) -> (r: Result<(SyntaxNode, usize), ParseError>)
    ensures
        match r {
            Ok(v) => pos < v.1 <= toks@.len(),
            Err(_) => true,
        },
        match (r, case_list_spec(tokens_view(toks@), pos as int)) {
            (Ok(v), Ok(sv)) => syntax_view(v.0) == sv.0 && v.1 as int == sv.1,
            (Err(e), Err(ev)) => err_view(e) == ev,
            _ => false,
        },
    decreases toks@.len() - pos, 0int,
{
    let ghost tv = tokens_view(toks@);
    if pos >= toks.len() {
        return Err(ParseError { at: pos, expected: "an opening bracket" });
    }
    match &toks[pos] {
        Token::LBracket => {},
        _ => {
            return Err(ParseError { at: pos, expected: "an opening bracket" });
        },
    }
    let mut children: Vec<SyntaxNode> = Vec::new();
    let mut cur: usize = pos + 1;
    if cur < toks.len() {
        let closes = match &toks[cur] {
            Token::RBracket => true,
            _ => false,
        };
        if closes {
            let node = SyntaxNode::node(Rule::ArrayOfCases, children);
            proof {
                assert(views_of(node.children@) =~= Seq::<SyntaxNodeV>::empty());
            }
            return Ok((node, cur + 1));
        }
    }
    let (first, p1) = parse_case_arg(toks, cur)?;
    proof {
        lemma_views_of_push(children@, first);
    }
    children.push(first);
    cur = p1;
    loop
        invariant
            pos < cur <= toks@.len(),
            case_items_spec(tv, pos + 1) == (match case_sep_spec(tv, cur as int) {
                Ok(rp) => Ok::<(Seq<SyntaxNodeV>, int), ParseErrorV>(
                    (views_of(children@) + rp.0, rp.1),
                ),
                Err(e) => Err::<(Seq<SyntaxNodeV>, int), ParseErrorV>(e),
            }),
        decreases toks@.len() - cur,
    {
        if cur >= toks.len() {
            return Err(ParseError { at: cur, expected: "a comma or a closing bracket" });
        }
        match &toks[cur] {
            Token::RBracket => {
                proof {
                    assert(views_of(children@) + Seq::<SyntaxNodeV>::empty() =~= views_of(
                        children@,
                    ));
                }
                let node = SyntaxNode::node(Rule::ArrayOfCases, children);
                return Ok((node, cur + 1));
            },
            Token::Comma => {
                let (next, p2) = parse_case_arg(toks, cur + 1)?;
                proof {
                    lemma_views_of_push(children@, next);
                    match case_sep_spec(tv, p2 as int) {
                        Ok(rp) => {
                            assert(views_of(children@) + (seq![syntax_view(next)] + rp.0)
                                =~= views_of(children@).push(syntax_view(next)) + rp.0);
                        },
                        Err(_) => {},
                    }
                }
                children.push(next);
                cur = p2;
            },
            _ => {
                return Err(ParseError { at: cur, expected: "a comma or a closing bracket" });
            },
        }
    }
}

/// A bracketed, comma-separated list of bounds.
#[verifier::rlimit(100)]
#[verifier::spinoff_prover]
#[verifier::loop_isolation(false)]
fn parse_bound_list(toks: &Vec<Token>, pos: usize) -> (r: Result<(SyntaxNode, usize), ParseError>)
    ensures
        match r {
            Ok(v) => pos < v.1 <= toks@.len(),
            Err(_) => true,
        },
        match (r, bound_list_spec(tokens_view(toks@), pos as int)) {
            (Ok(v), Ok(sv)) => syntax_view(v.0) == sv.0 && v.1 as int == sv.1,
            (Err(e), Err(ev)) => err_view(e) == ev,
            _ => false,
        },
    decreases toks@.len() - pos, 0int,
{
    let ghost tv = tokens_view(toks@);
    if pos >= toks.len() {
        return Err(ParseError { at: pos, expected: "an opening bracket" });
    }
    match &toks[pos] {
        Token::LBracket => {},
        _ => {
            return Err(ParseError { at: pos, expected: "an opening bracket" });
        },
    }
    let mut children: Vec<SyntaxNode> = Vec::new();
    let mut cur: usize = pos + 1;
    if cur < toks.len() {
        let closes = match &toks[cur] {
            Token::RBracket => true,
            _ => false,
        };
        if closes {
            let node = SyntaxNode::node(Rule::ArrayOfBounds, children);
            proof {
                assert(views_of(node.children@) =~= Seq::<SyntaxNodeV>::empty());
            }
            return Ok((node, cur + 1));
        }
    }
    let (first, p1) = parse_bound_arg(toks, cur)?;
    proof {
        lemma_views_of_push(children@, first);
    }
    children.push(first);
    cur = p1;
    loop
        invariant
            pos < cur <= toks@.len(),
            bound_items_spec(tv, pos + 1) == (match bound_sep_spec(tv, cur as int) {
                Ok(rp) => Ok::<(Seq<SyntaxNodeV>, int), ParseErrorV>(
                    (views_of(children@) + rp.0, rp.1),
                ),
                Err(e) => Err::<(Seq<SyntaxNodeV>, int), ParseErrorV>(e),
            }),
        decreases toks@.len() - cur,
    {
        if cur >= toks.len() {
            return Err(ParseError { at: cur, expected: "a comma or a closing bracket" });
        }
        match &toks[cur] {
            Token::RBracket => {
                proof {
                    assert(views_of(children@) + Seq::<SyntaxNodeV>::empty() =~= views_of(
                        children@,
                    ));
                }
                let node = SyntaxNode::node(Rule::ArrayOfBounds, children);
                return Ok((node, cur + 1));
            },
            Token::Comma => {
                let (next, p2) = parse_bound_arg(toks, cur + 1)?;
                proof {
                    lemma_views_of_push(children@, next);
                    match bound_sep_spec(tv, p2 as int) {
                        Ok(rp) => {
                            assert(views_of(children@) + (seq![syntax_view(next)] + rp.0)
                                =~= views_of(children@).push(syntax_view(next)) + rp.0);
                        },
                        Err(_) => {},
                    }
                }
                children.push(next);
                cur = p2;
            },
            _ => {
                return Err(ParseError { at: cur, expected: "a comma or a closing bracket" });
            },
        }
    }
}

/// One bound: a hole, or `(Bound low high)`.
#[verifier::rlimit(100)]
#[verifier::spinoff_prover]
fn parse_bound_arg(toks: &Vec<Token>, pos: usize) -> (r: Result<(SyntaxNode, usize), ParseError>)
    ensures
        match r {
            Ok(v) => pos < v.1 <= toks@.len(),
            Err(_) => true,
        },
        match (r, bound_arg_spec(tokens_view(toks@), pos as int)) {
            (Ok(v), Ok(sv)) => syntax_view(v.0) == sv.0 && v.1 as int == sv.1,
            (Err(e), Err(ev)) => err_view(e) == ev,
            _ => false,
        },
    decreases toks@.len() - pos, 0int,
{
    if pos >= toks.len() {
        return Err(ParseError { at: pos, expected: "a bound" });
    }
    match &toks[pos] {
        Token::Hole(name) => Ok((SyntaxNode::leaf(Rule::BoundHole, name.clone()), pos + 1)),
        Token::LParen => {
            if pos + 1 >= toks.len() {
                return Err(ParseError { at: pos + 1, expected: "the Bound keyword" });
            }
            match &toks[pos + 1] {
                Token::Ident(name) => {
                    if !is_kw(name, "Bound") {
                        return Err(ParseError { at: pos + 1, expected: "the Bound keyword" });
                    }
                },
                _ => {
                    return Err(ParseError { at: pos + 1, expected: "the Bound keyword" });
                },
            }
            if pos + 2 >= toks.len() {
                return Err(ParseError { at: pos + 2, expected: "a number" });
            }
            let lo = match &toks[pos + 2] {
                Token::Number(text) => SyntaxNode::leaf(Rule::Number, text.clone()),
                _ => {
                    return Err(ParseError { at: pos + 2, expected: "a number" });
                },
            };
            if pos + 3 >= toks.len() {
                return Err(ParseError { at: pos + 3, expected: "a number" });
            }
            let hi = match &toks[pos + 3] {
                Token::Number(text) => SyntaxNode::leaf(Rule::Number, text.clone()),
                _ => {
                    return Err(ParseError { at: pos + 3, expected: "a number" });
                },
            };
            let p1 = expect_rparen(toks, pos + 4)?;
                        Ok((node2(Rule::Bound, lo, hi), p1))
        },
        _ => Err(ParseError { at: pos, expected: "a bound" }),
    }
}

/// One case: a hole, or `(Case action contract)`.
#[verifier::rlimit(100)]
#[verifier::spinoff_prover]
fn parse_case_arg(toks: &Vec<Token>, pos: usize) -> (r: Result<(SyntaxNode, usize), ParseError>)
    ensures
        match r {
            Ok(v) => pos < v.1 <= toks@.len(),
            Err(_) => true,
        },
        match (r, case_arg_spec(tokens_view(toks@), pos as int)) {
            (Ok(v), Ok(sv)) => syntax_view(v.0) == sv.0 && v.1 as int == sv.1,
            (Err(e), Err(ev)) => err_view(e) == ev,
            _ => false,
        },
    decreases toks@.len() - pos, 0int,
{
    if pos >= toks.len() {
        return Err(ParseError { at: pos, expected: "a case" });
    }
    match &toks[pos] {
        Token::Hole(name) => Ok((SyntaxNode::leaf(Rule::CaseHole, name.clone()), pos + 1)),
        Token::LParen => {
            if pos + 1 >= toks.len() {
                return Err(ParseError { at: pos + 1, expected: "the Case keyword" });
            }
            match &toks[pos + 1] {
                Token::Ident(name) => {
                    if !is_kw(name, "Case") {
                        return Err(ParseError { at: pos + 1, expected: "the Case keyword" });
                    }
                },
                _ => {
                    return Err(ParseError { at: pos + 1, expected: "the Case keyword" });
                },
            }
            let (action, p1) = parse_action_arg(toks, pos + 2)?;
            let (cont, p2) = parse_contract_arg(toks, p1)?;
            let p3 = expect_rparen(toks, p2)?;
                        Ok((node2(Rule::Case, action, cont), p3))
        },
        _ => Err(ParseError { at: pos, expected: "a case" }),
    }
}

/// One action: a hole, or `(Deposit ...)`, `(Choice ...)`, `(Notify ...)`.
#[verifier::rlimit(100)]
#[verifier::spinoff_prover]
fn parse_action_arg(toks: &Vec<Token>, pos: usize) -> (r: Result<(SyntaxNode, usize), ParseError>)
    ensures
        match r {
            Ok(v) => pos < v.1 <= toks@.len(),
            Err(_) => true,
        },
        match (r, action_arg_spec(tokens_view(toks@), pos as int)) {
            (Ok(v), Ok(sv)) => syntax_view(v.0) == sv.0 && v.1 as int == sv.1,
            (Err(e), Err(ev)) => err_view(e) == ev,
            _ => false,
        },
    decreases toks@.len() - pos, 0int,
{
    if pos >= toks.len() {
        return Err(ParseError { at: pos, expected: "an action" });
    }
    match &toks[pos] {
        Token::Hole(name) => Ok((SyntaxNode::leaf(Rule::ActionHole, name.clone()), pos + 1)),
        Token::LParen => {
            if pos + 1 >= toks.len() {
                return Err(ParseError { at: pos + 1, expected: "an action keyword" });
            }
            match &toks[pos + 1] {
                Token::Ident(name) => {
                    if is_kw(name, "Deposit") {
                        let (acc, p1) = parse_party_arg(toks, pos + 2)?;
                        let (party, p2) = parse_party_arg(toks, p1)?;
                        let (token, p3) = parse_token_arg(toks, p2)?;
                        let (value, p4) = parse_value_arg(toks, p3)?;
                        let p5 = expect_rparen(toks, p4)?;
                                                Ok((node4(Rule::Deposit, acc, party, token, value), p5))
                    } else if is_kw(name, "Choice") {
                        let (cid, p1) = parse_choice_id_arg(toks, pos + 2)?;
                        let (bounds, p2) = parse_bound_list(toks, p1)?;
                        let p3 = expect_rparen(toks, p2)?;
                                                Ok((node2(Rule::Choice, cid, bounds), p3))
                    } else if is_kw(name, "Notify") {
                        let (obs, p1) = parse_obs_arg(toks, pos + 2)?;
                        let p2 = expect_rparen(toks, p1)?;
                                                Ok((node1(Rule::Notify, obs), p2))
                    } else {
                        Err(ParseError { at: pos + 1, expected: "an action keyword" })
                    }
                },
                _ => Err(ParseError { at: pos + 1, expected: "an action keyword" }),
            }
        },
        _ => Err(ParseError { at: pos, expected: "an action" }),
    }
}

/// One observation: `TrueObs`, `FalseObs`, a hole, or a parenthesized
/// comparison. A pair of parentheses admits only a comparison keyword, so an
/// atom wrapped in extra parentheses is always a parse error, never
/// recovered.
#[verifier::rlimit(100)]
#[verifier::spinoff_prover]
fn parse_obs_arg(toks: &Vec<Token>, pos: usize) -> (r: Result<(SyntaxNode, usize), ParseError>)
    ensures
        match r {
            Ok(v) => pos < v.1 <= toks@.len(),
            Err(_) => true,
        },
        ({
            &&& pos + 1 < toks@.len()
            &&& toks@[pos as int] is LParen
            &&& toks@[pos as int + 1] matches Token::Ident(name)
            &&& name@ != "ValueGT"@
            &&& name@ != "ValueGE"@
            &&& name@ != "ValueLT"@
        }) ==> r is Err,
        match (r, obs_arg_spec(tokens_view(toks@), pos as int)) {
            (Ok(v), Ok(sv)) => syntax_view(v.0) == sv.0 && v.1 as int == sv.1,
            (Err(e), Err(ev)) => err_view(e) == ev,
            _ => false,
        },
    decreases toks@.len() - pos, 0int,
{
    if pos >= toks.len() {
        return Err(ParseError { at: pos, expected: "an observation" });
    }
    match &toks[pos] {
        Token::Ident(name) => {
            if is_kw(name, "TrueObs") {
                Ok((SyntaxNode::leaf(Rule::TrueObs, name.clone()), pos + 1))
            } else if is_kw(name, "FalseObs") {
                Ok((SyntaxNode::leaf(Rule::FalseObs, name.clone()), pos + 1))
            } else {
                Err(ParseError { at: pos, expected: "an observation" })
            }
        },
        Token::Hole(name) => Ok((SyntaxNode::leaf(Rule::ObservationHole, name.clone()), pos + 1)),
        Token::LParen => {
            if pos + 1 >= toks.len() {
                return Err(ParseError { at: pos + 1, expected: "a comparison keyword" });
            }
            let rule = match &toks[pos + 1] {
                Token::Ident(name) => {
                    if is_kw(name, "ValueGT") {
                        Rule::ValueGT
                    } else if is_kw(name, "ValueGE") {
                        Rule::ValueGE
                    } else if is_kw(name, "ValueLT") {
                        Rule::ValueLT
                    } else {
                        return Err(ParseError { at: pos + 1, expected: "a comparison keyword" });
                    }
                },
                _ => {
                    return Err(ParseError { at: pos + 1, expected: "a comparison keyword" });
                },
            };
            let (v1, p1) = parse_value_arg(toks, pos + 2)?;
            let (v2, p2) = parse_value_arg(toks, p1)?;
            let p3 = expect_rparen(toks, p2)?;
                        Ok((node2(rule, v1, v2), p3))
        },
        _ => Err(ParseError { at: pos, expected: "an observation" }),
    }
}

/// One value: an interval atom, a hole, or a parenthesized composite form.
#[verifier::rlimit(100)]
#[verifier::spinoff_prover]
fn parse_value_arg(toks: &Vec<Token>, pos: usize) -> (r: Result<(SyntaxNode, usize), ParseError>)
    ensures
        match r {
            Ok(v) => pos < v.1 <= toks@.len(),
            Err(_) => true,
        },
        match (r, value_arg_spec(tokens_view(toks@), pos as int)) {
            (Ok(v), Ok(sv)) => syntax_view(v.0) == sv.0 && v.1 as int == sv.1,
            (Err(e), Err(ev)) => err_view(e) == ev,
            _ => false,
        },
    decreases toks@.len() - pos, 0int,
{
    if pos >= toks.len() {
        return Err(ParseError { at: pos, expected: "a value" });
    }
    match &toks[pos] {
        Token::Ident(name) => {
            if is_kw(name, "TimeIntervalStart") {
                Ok((SyntaxNode::leaf(Rule::TimeIntervalStart, name.clone()), pos + 1))
            } else if is_kw(name, "TimeIntervalEnd") {
                Ok((SyntaxNode::leaf(Rule::TimeIntervalEnd, name.clone()), pos + 1))
            } else {
                Err(ParseError { at: pos, expected: "a value" })
            }
        },
        Token::Hole(name) => Ok((SyntaxNode::leaf(Rule::ValueHole, name.clone()), pos + 1)),
        Token::LParen => {
            if pos + 1 >= toks.len() {
                return Err(ParseError { at: pos + 1, expected: "a value keyword" });
            }
            match &toks[pos + 1] {
                Token::Ident(name) => {
                    if is_kw(name, "Constant") {
                        if pos + 2 >= toks.len() {
                            return Err(ParseError { at: pos + 2, expected: "a number" });
                        }
                        let num = match &toks[pos + 2] {
                            Token::Number(text) => SyntaxNode::leaf(Rule::Number, text.clone()),
                            _ => {
                                return Err(ParseError { at: pos + 2, expected: "a number" });
                            },
                        };
                        let p1 = expect_rparen(toks, pos + 3)?;
                                                Ok((node1(Rule::Constant, num), p1))
                    } else if is_kw(name, "ConstantParam") {
                        if pos + 2 >= toks.len() {
                            return Err(ParseError { at: pos + 2, expected: "a quoted name" });
                        }
                        let pname = match &toks[pos + 2] {
                            Token::Quoted { inner, .. } => SyntaxNode::leaf(
                                Rule::StringLit,
                                inner.clone(),
                            ),
                            _ => {
                                return Err(ParseError { at: pos + 2, expected: "a quoted name" });
                            },
                        };
                        let p1 = expect_rparen(toks, pos + 3)?;
                                                Ok((node1(Rule::ConstantParam, pname), p1))
                    } else if is_kw(name, "UseValue") {
                        if pos + 2 >= toks.len() {
                            return Err(ParseError { at: pos + 2, expected: "a quoted name" });
                        }
                        let uname = match &toks[pos + 2] {
                            Token::Quoted { inner, .. } => SyntaxNode::leaf(
                                Rule::StringLit,
                                inner.clone(),
                            ),
                            _ => {
                                return Err(ParseError { at: pos + 2, expected: "a quoted name" });
                            },
                        };
                        let p1 = expect_rparen(toks, pos + 3)?;
                                                Ok((node1(Rule::UseValue, uname), p1))
                    } else if is_kw(name, "AvailableMoney") {
                        let (party, p1) = parse_party_arg(toks, pos + 2)?;
                        let (token, p2) = parse_token_arg(toks, p1)?;
                        let p3 = expect_rparen(toks, p2)?;
                                                Ok((node2(Rule::AvailableMoney, party, token), p3))
                    } else if is_kw(name, "AddValue") {
                        let (v1, p1) = parse_value_arg(toks, pos + 2)?;
                        let (v2, p2) = parse_value_arg(toks, p1)?;
                        let p3 = expect_rparen(toks, p2)?;
                                                Ok((node2(Rule::AddValue, v1, v2), p3))
                    } else if is_kw(name, "SubValue") {
                        let (v1, p1) = parse_value_arg(toks, pos + 2)?;
                        let (v2, p2) = parse_value_arg(toks, p1)?;
                        let p3 = expect_rparen(toks, p2)?;
                                                Ok((node2(Rule::SubValue, v1, v2), p3))
                    } else if is_kw(name, "MulValue") {
                        let (v1, p1) = parse_value_arg(toks, pos + 2)?;
                        let (v2, p2) = parse_value_arg(toks, p1)?;
                        let p3 = expect_rparen(toks, p2)?;
                                                Ok((node2(Rule::MulValue, v1, v2), p3))
                    } else if is_kw(name, "DivValue") {
                        let (v1, p1) = parse_value_arg(toks, pos + 2)?;
                        let (v2, p2) = parse_value_arg(toks, p1)?;
                        let p3 = expect_rparen(toks, p2)?;
                                                Ok((node2(Rule::DivValue, v1, v2), p3))
                    } else if is_kw(name, "NegValue") {
                        let (v1, p1) = parse_value_arg(toks, pos + 2)?;
                        let p2 = expect_rparen(toks, p1)?;
                                                Ok((node1(Rule::NegValue, v1), p2))
                    } else if is_kw(name, "ChoiceValue") {
                        let (cid, p1) = parse_choice_id_arg(toks, pos + 2)?;
                        let p2 = expect_rparen(toks, p1)?;
                                                Ok((node1(Rule::ChoiceValue, cid), p2))
                    } else if is_kw(name, "Cond") {
                        let (obs, p1) = parse_obs_arg(toks, pos + 2)?;
                        let (v1, p2) = parse_value_arg(toks, p1)?;
                        let (v2, p3) = parse_value_arg(toks, p2)?;
                        let p4 = expect_rparen(toks, p3)?;
                                                Ok((node3(Rule::Cond, obs, v1, v2), p4))
                    } else {
                        Err(ParseError { at: pos + 1, expected: "a value keyword" })
                    }
                },
                _ => Err(ParseError { at: pos + 1, expected: "a value keyword" }),
            }
        },
        _ => Err(ParseError { at: pos, expected: "a value" }),
    }
}

/// One party: a hole, or `(PK "...")` / `(Role "...")`.
#[verifier::rlimit(100)]
#[verifier::spinoff_prover]
fn parse_party_arg(toks: &Vec<Token>, pos: usize) -> (r: Result<(SyntaxNode, usize), ParseError>)
    ensures
        match r {
            Ok(v) => pos < v.1 <= toks@.len(),
            Err(_) => true,
        },
        match (r, party_arg_spec(tokens_view(toks@), pos as int)) {
            (Ok(v), Ok(sv)) => syntax_view(v.0) == sv.0 && v.1 as int == sv.1,
            (Err(e), Err(ev)) => err_view(e) == ev,
            _ => false,
        },
    decreases toks@.len() - pos, 0int,
{
    if pos >= toks.len() {
        return Err(ParseError { at: pos, expected: "a party" });
    }
    match &toks[pos] {
        Token::Hole(name) => Ok((SyntaxNode::leaf(Rule::PartyHole, name.clone()), pos + 1)),
        Token::LParen => {
            if pos + 1 >= toks.len() {
                return Err(ParseError { at: pos + 1, expected: "a party keyword" });
            }
            match &toks[pos + 1] {
                Token::Ident(name) => {
                    if is_kw(name, "PK") {
                        if pos + 2 >= toks.len() {
                            return Err(ParseError { at: pos + 2, expected: "a quoted key hash" });
                        }
                        let key = match &toks[pos + 2] {
                            Token::Quoted { raw, .. } => SyntaxNode::leaf(Rule::PubKey, raw.clone()),
                            _ => {
                                return Err(
                                    ParseError { at: pos + 2, expected: "a quoted key hash" },
                                );
                            },
                        };
                        let p1 = expect_rparen(toks, pos + 3)?;
                                                Ok((node1(Rule::PK, key), p1))
                    } else if is_kw(name, "Role") {
                        if pos + 2 >= toks.len() {
                            return Err(ParseError { at: pos + 2, expected: "a quoted role name" });
                        }
                        let role = match &toks[pos + 2] {
                            Token::Quoted { inner, .. } => SyntaxNode::leaf(
                                Rule::StringLit,
                                inner.clone(),
                            ),
                            _ => {
                                return Err(
                                    ParseError { at: pos + 2, expected: "a quoted role name" },
                                );
                            },
                        };
                        let p1 = expect_rparen(toks, pos + 3)?;
                                                Ok((node1(Rule::Role, role), p1))
                    } else {
                        Err(ParseError { at: pos + 1, expected: "a party keyword" })
                    }
                },
                _ => Err(ParseError { at: pos + 1, expected: "a party keyword" }),
            }
        },
        _ => Err(ParseError { at: pos, expected: "a party" }),
    }
}

/// One payee: a hole, or `(Account party)` / `(Party party)`.
#[verifier::rlimit(100)]
#[verifier::spinoff_prover]
fn parse_payee_arg(toks: &Vec<Token>, pos: usize) -> (r: Result<(SyntaxNode, usize), ParseError>)
    ensures
        match r {
            Ok(v) => pos < v.1 <= toks@.len(),
            Err(_) => true,
        },
        match (r, payee_arg_spec(tokens_view(toks@), pos as int)) {
            (Ok(v), Ok(sv)) => syntax_view(v.0) == sv.0 && v.1 as int == sv.1,
            (Err(e), Err(ev)) => err_view(e) == ev,
            _ => false,
        },
    decreases toks@.len() - pos, 0int,
{
    if pos >= toks.len() {
        return Err(ParseError { at: pos, expected: "a payee" });
    }
    match &toks[pos] {
        Token::Hole(name) => Ok((SyntaxNode::leaf(Rule::PayeeHole, name.clone()), pos + 1)),
        Token::LParen => {
            if pos + 1 >= toks.len() {
                return Err(ParseError { at: pos + 1, expected: "a payee keyword" });
            }
            let rule = match &toks[pos + 1] {
                Token::Ident(name) => {
                    if is_kw(name, "Account") {
                        Rule::PayeeAccount
                    } else if is_kw(name, "Party") {
                        Rule::PayeeParty
                    } else {
                        return Err(ParseError { at: pos + 1, expected: "a payee keyword" });
                    }
                },
                _ => {
                    return Err(ParseError { at: pos + 1, expected: "a payee keyword" });
                },
            };
            let (party, p1) = parse_party_arg(toks, pos + 2)?;
            let p2 = expect_rparen(toks, p1)?;
                        Ok((node1(rule, party), p2))
        },
        _ => Err(ParseError { at: pos, expected: "a payee" }),
    }
}

/// One token: a hole, or `(Token "symbol" "name")`; two empty strings are
/// the built-in currency.
#[verifier::rlimit(100)]
#[verifier::spinoff_prover]
fn parse_token_arg(toks: &Vec<Token>, pos: usize) -> (r: Result<(SyntaxNode, usize), ParseError>)
    ensures
        match r {
            Ok(v) => pos < v.1 <= toks@.len(),
            Err(_) => true,
        },
        match (r, token_arg_spec(tokens_view(toks@), pos as int)) {
            (Ok(v), Ok(sv)) => syntax_view(v.0) == sv.0 && v.1 as int == sv.1,
            (Err(e), Err(ev)) => err_view(e) == ev,
            _ => false,
        },
    decreases toks@.len() - pos, 0int,
{
    if pos >= toks.len() {
        return Err(ParseError { at: pos, expected: "a token" });
    }
    match &toks[pos] {
        Token::Hole(name) => Ok((SyntaxNode::leaf(Rule::TokenHole, name.clone()), pos + 1)),
        Token::LParen => {
            if pos + 1 >= toks.len() {
                return Err(ParseError { at: pos + 1, expected: "the Token keyword" });
            }
            match &toks[pos + 1] {
                Token::Ident(name) => {
                    if !is_kw(name, "Token") {
                        return Err(ParseError { at: pos + 1, expected: "the Token keyword" });
                    }
                },
                _ => {
                    return Err(ParseError { at: pos + 1, expected: "the Token keyword" });
                },
            }
            if pos + 2 >= toks.len() {
                return Err(ParseError { at: pos + 2, expected: "a quoted currency symbol" });
            }
            let symbol = match &toks[pos + 2] {
                Token::Quoted { inner, .. } => inner.clone(),
                _ => {
                    return Err(ParseError { at: pos + 2, expected: "a quoted currency symbol" });
                },
            };
            if pos + 3 >= toks.len() {
                return Err(ParseError { at: pos + 3, expected: "a quoted token name" });
            }
            let tname = match &toks[pos + 3] {
                Token::Quoted { inner, .. } => inner.clone(),
                _ => {
                    return Err(ParseError { at: pos + 3, expected: "a quoted token name" });
                },
            };
            let p1 = expect_rparen(toks, pos + 4)?;
            if symbol.as_str().is_empty() && tname.as_str().is_empty() {
                Ok((SyntaxNode::leaf(Rule::ADA, symbol), p1))
            } else {
                                Ok((node2(Rule::Currency, SyntaxNode::leaf(Rule::StringLit, symbol), SyntaxNode::leaf(Rule::StringLit, tname)), p1))
            }
        },
        _ => Err(ParseError { at: pos, expected: "a token" }),
    }
}

/// One timeout: a literal number, a hole, or `(TimeParam "...")`.
#[verifier::rlimit(100)]
#[verifier::spinoff_prover]
fn parse_timeout_arg(toks: &Vec<Token>, pos: usize) -> (r: Result<(SyntaxNode, usize), ParseError>)
    ensures
        match r {
            Ok(v) => pos < v.1 <= toks@.len(),
            Err(_) => true,
        },
        match (r, timeout_arg_spec(tokens_view(toks@), pos as int)) {
            (Ok(v), Ok(sv)) => syntax_view(v.0) == sv.0 && v.1 as int == sv.1,
            (Err(e), Err(ev)) => err_view(e) == ev,
            _ => false,
        },
    decreases toks@.len() - pos, 0int,
{
    if pos >= toks.len() {
        return Err(ParseError { at: pos, expected: "a timeout" });
    }
    match &toks[pos] {
        Token::Number(text) => Ok((SyntaxNode::leaf(Rule::TimeConstant, text.clone()), pos + 1)),
        Token::Hole(name) => Ok((SyntaxNode::leaf(Rule::TimeoutHole, name.clone()), pos + 1)),
        Token::LParen => {
            if pos + 1 >= toks.len() {
                return Err(ParseError { at: pos + 1, expected: "the TimeParam keyword" });
            }
            match &toks[pos + 1] {
                Token::Ident(name) => {
                    if !is_kw(name, "TimeParam") {
                        return Err(ParseError { at: pos + 1, expected: "the TimeParam keyword" });
                    }
                },
                _ => {
                    return Err(ParseError { at: pos + 1, expected: "the TimeParam keyword" });
                },
            }
            if pos + 2 >= toks.len() {
                return Err(ParseError { at: pos + 2, expected: "a quoted parameter name" });
            }
            let pname = match &toks[pos + 2] {
                Token::Quoted { inner, .. } => SyntaxNode::leaf(Rule::StringLit, inner.clone()),
                _ => {
                    return Err(ParseError { at: pos + 2, expected: "a quoted parameter name" });
                },
            };
            let p1 = expect_rparen(toks, pos + 3)?;
                        Ok((node1(Rule::TimeParam, pname), p1))
        },
        _ => Err(ParseError { at: pos, expected: "a timeout" }),
    }
}

/// One choice identifier: `(ChoiceId "name" party)`.
#[verifier::rlimit(100)]
#[verifier::spinoff_prover]
fn parse_choice_id_arg(toks: &Vec<Token>, pos: usize) -> (r: Result<
    (SyntaxNode, usize),
    ParseError,
>)
    ensures
        match r {
            Ok(v) => pos < v.1 <= toks@.len(),
            Err(_) => true,
        },
        match (r, choice_id_arg_spec(tokens_view(toks@), pos as int)) {
            (Ok(v), Ok(sv)) => syntax_view(v.0) == sv.0 && v.1 as int == sv.1,
            (Err(e), Err(ev)) => err_view(e) == ev,
            _ => false,
        },
    decreases toks@.len() - pos, 0int,
{
    if pos >= toks.len() {
        return Err(ParseError { at: pos, expected: "a choice identifier" });
    }
    match &toks[pos] {
        Token::LParen => {
            if pos + 1 >= toks.len() {
                return Err(ParseError { at: pos + 1, expected: "the ChoiceId keyword" });
            }
            match &toks[pos + 1] {
                Token::Ident(name) => {
                    if !is_kw(name, "ChoiceId") {
                        return Err(ParseError { at: pos + 1, expected: "the ChoiceId keyword" });
                    }
                },
                _ => {
                    return Err(ParseError { at: pos + 1, expected: "the ChoiceId keyword" });
                },
            }
            if pos + 2 >= toks.len() {
                return Err(ParseError { at: pos + 2, expected: "a quoted choice name" });
            }
            let cname = match &toks[pos + 2] {
                Token::Quoted { inner, .. } => SyntaxNode::leaf(Rule::StringLit, inner.clone()),
                _ => {
                    return Err(ParseError { at: pos + 2, expected: "a quoted choice name" });
                },
            };
            let (party, p1) = parse_party_arg(toks, pos + 3)?;
            let p2 = expect_rparen(toks, p1)?;
                        Ok((node2(Rule::ChoiceId, cname, party), p2))
        },
        _ => Err(ParseError { at: pos, expected: "a choice identifier" }),
    }
}

/// Parses one whole contract, exactly as `parse_text_spec` describes: the
/// tokens, one contract from the root, and the end of the input.
pub fn parse_text(content: &str) -> (r: Result<SyntaxNode, ParseError>)
    ensures
        match (r, parse_text_spec(content@)) {
            (Ok(t), Ok(tv)) => syntax_view(t) == tv,
            (Err(e), Err(ev)) => err_view(e) == ev,
            _ => false,
        },
{
    let toks = lex(content)?;
    let (node, end) = parse_contract_root(&toks, 0)?;
    if end != toks.len() {
        return Err(ParseError { at: end, expected: "the end of the input" });
    }
    Ok(node)
}

} // verus!
