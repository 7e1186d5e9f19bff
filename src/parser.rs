use vstd::prelude::*;

use crate::ast::{exprs_model, BinaryOp, Expr, ExprModel, UnaryOp};
use crate::diag::{Diagnostic, DiagnosticKind};
use crate::lexer::{lex, Lexeme, Token, TokenKind};
use crate::text::{numeral, numeral_text, str_eq};
use crate::units::{resolve_prefixed_unit, resolve_unit, Scale};

verus! {

/// An expression and the diagnostics gathered while parsing it.
#[derive(Debug)]
pub struct ParseResult {
    pub expr: Expr,
    pub diagnostics: Vec<Diagnostic>,
}

/// The kind of token `i`; past the end the stream reads as `Eof`.
pub open spec fn kind_at(ks: Seq<Lexeme>, i: int) -> Lexeme {
    if 0 <= i < ks.len() {
        ks[i]
    } else {
        Lexeme::Eof
    }
}

/// The kinds of a token sequence.
pub open spec fn kinds(toks: Seq<Token>) -> Seq<Lexeme> {
    toks.map_values(|t: Token| t.kind@)
}

/// The index of the `)` that closes an open parenthesis, scanning from `i`
/// at nesting depth `depth`; none when `Eof` or the end comes first.
pub open spec fn close_index(ks: Seq<Lexeme>, i: int, depth: int) -> Option<int>
    decreases ks.len() - i,
{
    if i < 0 || i >= ks.len() {
        None
    } else {
        match ks[i] {
            Lexeme::LParen => close_index(ks, i + 1, depth + 1),
            Lexeme::RParen => if depth == 1 {
                Some(i)
            } else {
                close_index(ks, i + 1, depth - 1)
            },
            Lexeme::Eof => None,
            _ => close_index(ks, i + 1, depth),
        }
    }
}

/// Tokens from `p` on read `name ( ... ) =` with balanced parentheses.
pub open spec fn fn_def_at(ks: Seq<Lexeme>, p: int) -> bool {
    &&& kind_at(ks, p) is Ident
    &&& kind_at(ks, p + 1) is LParen
    &&& match close_index(ks, p + 2, 1) {
        Some(c) => kind_at(ks, c + 1) is Assign,
        None => false,
    }
}

/// The parameter names read from token `i` on, and where reading stops:
/// names are taken and commas skipped; `)` ends the list and is consumed;
/// any other token ends it and is not.
pub open spec fn params_from(ks: Seq<Lexeme>, i: int) -> (Seq<Seq<char>>, int)
    decreases ks.len() - i,
{
    if i < 0 || i >= ks.len() {
        (Seq::empty(), i)
    } else {
        match ks[i] {
            Lexeme::Ident(id) => {
                let rest = params_from(ks, i + 1);
                (seq![id] + rest.0, rest.1)
            },
            Lexeme::RParen => (Seq::empty(), i + 1),
            Lexeme::Comma => params_from(ks, i + 1),
            _ => (Seq::empty(), i),
        }
    }
}

/// Left and right binding powers of the operator a token stands for, and
/// whether it is an implicit multiplication (no operator token consumed).
pub open spec fn binding(k: Lexeme) -> Option<(BinaryOp, u8, u8, bool)> {
    match k {
        Lexeme::Plus => Some((BinaryOp::Add, 10u8, 11u8, false)),
        Lexeme::Minus => Some((BinaryOp::Sub, 10u8, 11u8, false)),
        Lexeme::Star => Some((BinaryOp::Mul, 20u8, 21u8, false)),
        Lexeme::Slash => Some((BinaryOp::Div, 20u8, 21u8, false)),
        Lexeme::Percent => Some((BinaryOp::Mod, 20u8, 21u8, false)),
        Lexeme::Parallel => Some((BinaryOp::Parallel, 18u8, 19u8, false)),
        Lexeme::Caret => Some((BinaryOp::Pow, 30u8, 29u8, false)),
        Lexeme::Ident(s) => if s == seq!['t', 'o'] {
            Some((BinaryOp::Convert, 1u8, 2u8, false))
        } else {
            Some((BinaryOp::Mul, 20u8, 21u8, true))
        },
        Lexeme::LParen => Some((BinaryOp::Mul, 20u8, 21u8, true)),
        _ => None,
    }
}

pub open spec fn is_to(s: Seq<char>) -> bool {
    s == seq!['t', 'o']
}

fn is_to_word(s: &String) -> (r: bool)
    ensures
        r == is_to(s@),
{
    let t = "to";
    proof {
        reveal_strlit("to");
    }
    let r = str_eq(s.as_str(), t);
    assert(t@ =~= seq!['t', 'o']);
    r
}

fn binding_of(k: &TokenKind) -> (r: Option<(BinaryOp, u8, u8, bool)>)
    ensures
        r == binding(k@),
{
    match k {
        TokenKind::Plus => Some((BinaryOp::Add, 10, 11, false)),
        TokenKind::Minus => Some((BinaryOp::Sub, 10, 11, false)),
        TokenKind::Star => Some((BinaryOp::Mul, 20, 21, false)),
        TokenKind::Slash => Some((BinaryOp::Div, 20, 21, false)),
        TokenKind::Percent => Some((BinaryOp::Mod, 20, 21, false)),
        TokenKind::Parallel => Some((BinaryOp::Parallel, 18, 19, false)),
        TokenKind::Caret => Some((BinaryOp::Pow, 30, 29, false)),
        TokenKind::Ident(s) => if is_to_word(s) {
            Some((BinaryOp::Convert, 1, 2, false))
        } else {
            Some((BinaryOp::Mul, 20, 21, true))
        },
        TokenKind::LParen => Some((BinaryOp::Mul, 20, 21, true)),
        _ => None,
    }
}

impl TokenKind {
    /// A copy with the same value.
    pub fn duplicate(&self) -> (r: TokenKind)
        ensures
            r@ == self@,
    {
        match self {
            TokenKind::Number(s) => TokenKind::Number(s.clone()),
            TokenKind::Ident(s) => TokenKind::Ident(s.clone()),
            TokenKind::Str(s) => TokenKind::Str(s.clone()),
            TokenKind::Plus => TokenKind::Plus,
            TokenKind::Minus => TokenKind::Minus,
            TokenKind::Star => TokenKind::Star,
            TokenKind::Slash => TokenKind::Slash,
            TokenKind::Percent => TokenKind::Percent,
            TokenKind::Parallel => TokenKind::Parallel,
            TokenKind::Caret => TokenKind::Caret,
            TokenKind::LParen => TokenKind::LParen,
            TokenKind::RParen => TokenKind::RParen,
            TokenKind::LBracket => TokenKind::LBracket,
            TokenKind::RBracket => TokenKind::RBracket,
            TokenKind::LBrace => TokenKind::LBrace,
            TokenKind::RBrace => TokenKind::RBrace,
            TokenKind::Comma => TokenKind::Comma,
            TokenKind::Colon => TokenKind::Colon,
            TokenKind::Assign => TokenKind::Assign,
            TokenKind::Hash => TokenKind::Hash,
            TokenKind::Eof => TokenKind::Eof,
        }
    }

    /// Equal kinds, payloads compared by value.
    pub fn same_kind(&self, other: &TokenKind) -> (r: bool)
        ensures
            r == (self@ == other@),
    {
        match (self, other) {
            (TokenKind::Number(a), TokenKind::Number(b)) => str_eq(a.as_str(), b.as_str()),
            (TokenKind::Ident(a), TokenKind::Ident(b)) => str_eq(a.as_str(), b.as_str()),
            (TokenKind::Str(a), TokenKind::Str(b)) => str_eq(a.as_str(), b.as_str()),
            (TokenKind::Plus, TokenKind::Plus) => true,
            (TokenKind::Minus, TokenKind::Minus) => true,
            (TokenKind::Star, TokenKind::Star) => true,
            (TokenKind::Slash, TokenKind::Slash) => true,
            (TokenKind::Percent, TokenKind::Percent) => true,
            (TokenKind::Parallel, TokenKind::Parallel) => true,
            (TokenKind::Caret, TokenKind::Caret) => true,
            (TokenKind::LParen, TokenKind::LParen) => true,
            (TokenKind::RParen, TokenKind::RParen) => true,
            (TokenKind::LBracket, TokenKind::LBracket) => true,
            (TokenKind::RBracket, TokenKind::RBracket) => true,
            (TokenKind::LBrace, TokenKind::LBrace) => true,
            (TokenKind::RBrace, TokenKind::RBrace) => true,
            (TokenKind::Comma, TokenKind::Comma) => true,
            (TokenKind::Colon, TokenKind::Colon) => true,
            (TokenKind::Assign, TokenKind::Assign) => true,
            (TokenKind::Hash, TokenKind::Hash) => true,
            (TokenKind::Eof, TokenKind::Eof) => true,
            _ => false,
        }
    }
}

/// A Pratt parser over a token stream.
pub struct Parser {
    pub tokens: Vec<Token>,
    pub pos: usize,
    pub diagnostics: Vec<Diagnostic>,
}

impl Parser {
    pub open spec fn wf(&self) -> bool {
        self.pos <= self.tokens@.len()
    }

    /// The parser moved forward over the same tokens and only appended
    /// parse diagnostics.
    pub open spec fn advanced(&self, before: &Parser) -> bool {
        &&& self.tokens@ == before.tokens@
        &&& before.pos <= self.pos <= self.tokens@.len()
        &&& self.diagnostics@.len() >= before.diagnostics@.len()
        &&& forall|i: int|
            0 <= i < before.diagnostics@.len() ==> self.diagnostics@[i] == before.diagnostics@[i]
    }

    pub fn peek(&self) -> (r: TokenKind)
        ensures
            r@ == kind_at(kinds(self.tokens@), self.pos as int),
    {
        if self.pos < self.tokens.len() {
            self.tokens[self.pos].kind.duplicate()
        } else {
            TokenKind::Eof
        }
    }

    /// Moves past the current token; at the end of the stream it stays put.
    pub fn bump(&mut self)
        requires
            old(self).wf(),
        ensures
            final(self).tokens@ == old(self).tokens@,
            final(self).diagnostics@ == old(self).diagnostics@,
            final(self).pos == if old(self).pos < old(self).tokens@.len() {
                old(self).pos + 1
            } else {
                old(self).pos as int
            },
    {
        if self.pos < self.tokens.len() {
            self.pos = self.pos + 1;
        }
    }

    pub fn at(&self, kind: &TokenKind) -> (r: bool)
        ensures
            r == (self.pos < self.tokens@.len() && self.tokens@[self.pos as int].kind@ == kind@),
    {
        self.pos < self.tokens.len() && self.tokens[self.pos].kind.same_kind(kind)
    }

    /// Whether the tokens from the current one read `name ( ... ) =`.
    pub fn looks_like_fn_def(&self) -> (r: bool)
        requires
            self.wf(),
        ensures
            r == fn_def_at(kinds(self.tokens@), self.pos as int),
    {
        let ghost toks = kinds(self.tokens@);
        let p = self.pos;
        if p >= self.tokens.len() || self.tokens.len() - p < 2 {
            return false;
        }
        match &self.tokens[p].kind {
            TokenKind::Ident(_) => {},
            _ => {
                return false;
            },
        }
        match &self.tokens[p + 1].kind {
            TokenKind::LParen => {},
            _ => {
                return false;
            },
        }
        let mut i: usize = p + 2;
        let mut depth: usize = 1;
        while i < self.tokens.len()
            invariant
                toks == kinds(self.tokens@),
                p == self.pos,
                kind_at(toks, p as int) is Ident,
                kind_at(toks, p + 1) is LParen,
                p + 2 <= i <= toks.len(),
                1 <= depth <= i,
                close_index(toks, p + 2, 1) == close_index(toks, i as int, depth as int),
            decreases toks.len() - i,
        {
            match &self.tokens[i].kind {
                TokenKind::LParen => {
                    depth = depth + 1;
                },
                TokenKind::RParen => {
                    if depth == 1 {
                        assert(close_index(toks, i as int, 1) == Some(i as int));
                        return i + 1 < self.tokens.len() && match &self.tokens[i + 1].kind {
                            TokenKind::Assign => true,
                            _ => false,
                        };
                    }
                    depth = depth - 1;
                },
                TokenKind::Eof => {
                    assert(close_index(toks, i as int, depth as int) is None);
                    return false;
                },
                _ => {},
            }
            i = i + 1;
        }
        false
    }

    /// Reads `( name, name, ... )`: skips the `(`, then takes names and skips
    /// commas up to and including `)`, stopping early at any other token.
    pub fn parse_params(&mut self) -> (r: Vec<String>)
        requires
            old(self).wf(),
        ensures
            final(self).advanced(old(self)),
            final(self).diagnostics@ == old(self).diagnostics@,
            old(self).pos < old(self).tokens@.len() ==> (crate::ast::strings_model(r@),
            final(self).pos as int) == params_from(old(self).ks(), old(self).pos + 1),
    {
        let mut params: Vec<String> = Vec::new();
        let ghost entry = old(self).pos;
        self.bump();
        let ghost first = self.pos as int;
        loop
            invariant_except_break
                entry < self.tokens@.len() ==> crate::ast::strings_model(params@) + params_from(
                    self.ks(),
                    self.pos as int,
                ).0 == params_from(self.ks(), first).0,
                entry < self.tokens@.len() ==> params_from(self.ks(), self.pos as int).1
                    == params_from(self.ks(), first).1,
            invariant
                self.wf(),
                self.tokens@ == old(self).tokens@,
                old(self).pos <= self.pos,
                self.diagnostics@ == old(self).diagnostics@,
                entry == old(self).pos,
                entry < self.tokens@.len() ==> first == entry + 1,
            ensures
                entry < self.tokens@.len() ==> crate::ast::strings_model(params@) == params_from(
                    self.ks(),
                    first,
                ).0,
                entry < self.tokens@.len() ==> self.pos == params_from(self.ks(), first).1,
            decreases self.tokens@.len() - self.pos,
        {
            let ghost at = self.pos as int;
            let ghost before = params@;
            match self.peek() {
                TokenKind::Ident(id) => {
                    self.bump();
                    params.push(id);
                    proof {
                        let ks = self.ks();
                        assert(crate::ast::strings_model(params@) =~= crate::ast::strings_model(
                            before,
                        ).push(id@));
                        assert(params_from(ks, at).0 == seq![id@] + params_from(ks, at + 1).0);
                        assert(crate::ast::strings_model(params@) + params_from(ks, at + 1).0
                            =~= crate::ast::strings_model(before) + params_from(ks, at).0);
                    }
                },
                TokenKind::RParen => {
                    self.bump();
                    assert(params_from(self.ks(), at).0 =~= Seq::<Seq<char>>::empty());
                    assert(crate::ast::strings_model(params@) + Seq::<Seq<char>>::empty()
                        =~= crate::ast::strings_model(params@));
                    break ;
                },
                TokenKind::Comma => {
                    self.bump();
                },
                _ => {
                    assert(params_from(self.ks(), at).0 =~= Seq::<Seq<char>>::empty());
                    assert(crate::ast::strings_model(params@) + Seq::<Seq<char>>::empty()
                        =~= crate::ast::strings_model(params@));
                    break ;
                },
            }
        }
        params
    }
}

} // verus!

verus! {

/// The prefix rule at `p`: the operand it builds and the position after it.
/// A number takes a following unit into a quantity; a unit alone is a
/// quantity of one of its canonical unit; a name followed by `(` is a call; signs take an operand
/// at binding power 25; a parenthesised expression drops a closing `)` if
/// one follows; any other token is an error and is consumed.
pub open spec fn prefix_spec(ks: Seq<Lexeme>, p: int) -> (ExprModel, int)
    decreases ks.len() - p, 0int,
{
    if p < 0 || p >= ks.len() {
        (ExprModel::Error, p)
    } else {
        match ks[p] {
            Lexeme::Number(t) => match kind_at(ks, p + 1) {
                Lexeme::Ident(u) => match resolve_unit(u) {
                    Some((_, s, name)) => (
                        ExprModel::Quantity { value: numeral(t), scale: s, unit: name@ },
                        p + 2,
                    ),
                    None => (ExprModel::Number(numeral(t)), p + 1),
                },
                _ => (ExprModel::Number(numeral(t)), p + 1),
            },
            Lexeme::Ident(id) => match resolve_unit(id) {
                Some((_, _, name)) => (
                    ExprModel::Quantity { value: seq!['1'], scale: crate::units::one(), unit: name@ },
                    p + 1,
                ),
                None => if kind_at(ks, p + 1) is LParen {
                    let (args, q) = args_spec(ks, p + 2, Seq::empty());
                    (ExprModel::Call { callee: Box::new(ExprModel::Ident(id)), args }, q)
                } else {
                    (ExprModel::Ident(id), p + 1)
                },
            },
            Lexeme::Minus => {
                let (e, q) = pratt(ks, p + 1, 25);
                (ExprModel::Unary { op: UnaryOp::Minus, expr: Box::new(e) }, q)
            },
            Lexeme::Plus => {
                let (e, q) = pratt(ks, p + 1, 25);
                (ExprModel::Unary { op: UnaryOp::Plus, expr: Box::new(e) }, q)
            },
            Lexeme::LParen => {
                let (e, q) = pratt(ks, p + 1, 0);
                (e, if kind_at(ks, q) is RParen { q + 1 } else { q })
            },
            _ => (ExprModel::Error, p + 1),
        }
    }
}

/// An expression at `p` whose operators bind at `min` or tighter, and the
/// position after it.
pub open spec fn pratt(ks: Seq<Lexeme>, p: int, min: u8) -> (ExprModel, int)
    decreases ks.len() - p, 2int,
{
    if p < 0 || p > ks.len() {
        (ExprModel::Error, p)
    } else {
        let (lhs, q) = prefix_spec(ks, p);
        if p <= q <= ks.len() {
            infix_spec(ks, q, lhs, min)
        } else {
            (lhs, q)
        }
    }
}

/// The operator loop from `p` with left operand `lhs`: while the token at
/// the position binds at `min` or tighter (by `binding`), its right operand
/// is parsed at its right binding power and joined to the left.
pub open spec fn infix_spec(ks: Seq<Lexeme>, p: int, lhs: ExprModel, min: u8) -> (ExprModel, int)
    decreases ks.len() - p, 1int,
{
    if p < 0 || p > ks.len() {
        (lhs, p)
    } else {
        match binding(kind_at(ks, p)) {
            Some((op, lbp, rbp, implicit)) => if lbp < min {
                (lhs, p)
            } else {
                let (rhs, q) = if implicit {
                    let (head, q1) = prefix_spec(ks, p);
                    if p < q1 <= ks.len() {
                        infix_spec(ks, q1, head, rbp)
                    } else {
                        (head, q1)
                    }
                } else {
                    pratt(ks, p + 1, rbp)
                };
                let tree = ExprModel::Binary { op, left: Box::new(lhs), right: Box::new(rhs) };
                if p < q <= ks.len() {
                    infix_spec(ks, q, tree, min)
                } else {
                    (tree, q)
                }
            },
            None => (lhs, p),
        }
    }
}

/// Call arguments from `p`, after those in `acc`: expressions separated by
/// commas up to `)`; a missing `)` costs one token and ends the list.
pub open spec fn args_spec(ks: Seq<Lexeme>, p: int, acc: Seq<ExprModel>) -> (Seq<ExprModel>, int)
    decreases ks.len() - p, 3int,
{
    if p < 0 || p > ks.len() {
        (acc, p)
    } else if kind_at(ks, p) is RParen {
        (acc, p + 1)
    } else {
        let (e, q) = pratt(ks, p, 0);
        if p <= q < ks.len() && kind_at(ks, q) is Comma {
            args_spec(ks, q + 1, acc.push(e))
        } else {
            (acc.push(e), if q < ks.len() { q + 1 } else { q })
        }
    }
}

pub open spec fn tree_of(r: (ExprModel, int)) -> ExprModel {
    r.0
}

/// The token at `p` cannot start an expression.
pub open spec fn unexpected_at(ks: Seq<Lexeme>, p: int) -> bool {
    !(kind_at(ks, p) is Number || kind_at(ks, p) is Ident || kind_at(ks, p) is Minus || kind_at(
        ks,
        p,
    ) is Plus || kind_at(ks, p) is LParen)
}

/// Every diagnostic from index `from` on is a parse diagnostic.
pub open spec fn parse_diagnostics_from(ds: Seq<Diagnostic>, from: int) -> bool {
    forall|i: int| from <= i < ds.len() ==> (#[trigger] ds[i]).kind == DiagnosticKind::Parse
}

impl Parser {
    pub open spec fn ks(&self) -> Seq<Lexeme> {
        kinds(self.tokens@)
    }

    /// The prefix rule: a number (with an optional unit), an identifier (a
    /// unit, a call or a name), a sign, or a parenthesised expression.
    pub fn parse_prefix(&mut self) -> (r: Expr)
        requires
            old(self).wf(),
        ensures
            final(self).advanced(old(self)),
            old(self).pos < old(self).tokens@.len() ==> final(self).pos > old(self).pos,
            (r@, final(self).pos as int) == prefix_spec(old(self).ks(), old(self).pos as int),
            unexpected_at(old(self).ks(), old(self).pos as int) ==> final(self).diagnostics@.len()
                == old(self).diagnostics@.len() + 1,
            parse_diagnostics_from(final(self).diagnostics@, old(self).diagnostics@.len() as int),
        decreases self.tokens@.len() - self.pos, 0int,
    {
        let ghost start = *self;
        match self.peek() {
            TokenKind::Number(s) => {
                self.bump();
                let n = numeral_text(s.as_str());
                if let TokenKind::Ident(u) = self.peek() {
                    if let Some((_d, scale, canon)) = resolve_prefixed_unit(u.as_str()) {
                        self.bump();
                        return Expr::Quantity { value: n, scale, unit: String::from_str(canon) };
                    }
                }
                Expr::Number(n)
            },
            TokenKind::Ident(id) => {
                self.bump();
                if let Some((_d, _scale, canon)) = resolve_prefixed_unit(id.as_str()) {
                    let scale = Scale { num: 1, den: 1, pow10: 0, pi_pow: 0 };
                    let one = String::from_str("1");
                    proof {
                        reveal_strlit("1");
                        assert(one@ =~= seq!['1']);
                    }
                    return Expr::Quantity { value: one, scale, unit: String::from_str(canon) };
                }
                if let TokenKind::LParen = self.peek() {
                    self.bump();
                    let mut args: Vec<Expr> = Vec::new();
                    let ghost ks = start.ks();
                    assert(exprs_model(args@) =~= Seq::<ExprModel>::empty());
                    loop
                        invariant_except_break
                            args_spec(ks, self.pos as int, exprs_model(args@)) == args_spec(
                                ks,
                                start.pos + 2,
                                Seq::empty(),
                            ),
                        invariant
                            self.wf(),
                            ks == self.ks(),
                            start.tokens@ == old(self).tokens@,
                            start.pos == old(self).pos,
                            self.advanced(&start),
                            self.pos > start.pos,
                            parse_diagnostics_from(self.diagnostics@, start.diagnostics@.len() as int),
                        ensures
                            (exprs_model(args@), self.pos as int) == args_spec(
                                ks,
                                start.pos + 2,
                                Seq::empty(),
                            ),
                        decreases self.tokens@.len() - self.pos,
                    {
                        let ghost p = self.pos as int;
                        let ghost acc = exprs_model(args@);
                        if let TokenKind::RParen = self.peek() {
                            self.bump();
                            break ;
                        }
                        let e = self.parse_expr(0);
                        let ghost em = e@;
                        let ghost before = args@;
                        args.push(e);
                        proof {
                            assert(args@.drop_last() =~= before);
                            assert(exprs_model(args@) == acc.push(em));
                        }
                        if let TokenKind::Comma = self.peek() {
                            self.bump();
                        } else {
                            self.bump();
                            break ;
                        }
                    }
                    let callee = Expr::Ident(id);
                    assert(callee@ == ExprModel::Ident(id@));
                    return Expr::Call { callee: Box::new(callee), args };
                }
                Expr::Ident(id)
            },
            TokenKind::Minus => {
                self.bump();
                let e = self.parse_expr(25);
                Expr::Unary { op: UnaryOp::Minus, expr: Box::new(e) }
            },
            TokenKind::Plus => {
                self.bump();
                let e = self.parse_expr(25);
                Expr::Unary { op: UnaryOp::Plus, expr: Box::new(e) }
            },
            TokenKind::LParen => {
                self.bump();
                let e = self.parse_expr(0);
                if let TokenKind::RParen = self.peek() {
                    self.bump();
                }
                e
            },
            _ => {
                let span = if self.pos < self.tokens.len() {
                    Some((self.tokens[self.pos].start, self.tokens[self.pos].end))
                } else {
                    None
                };
                self.bump();
                let d = Diagnostic::parse("unexpected token", span);
                self.diagnostics.push(d);
                Expr::Error
            },
        }
    }

    /// Parses an expression whose operators bind at least as tightly as `min_bp`.
    pub fn parse_expr(&mut self, min_bp: u8) -> (r: Expr)
        requires
            old(self).wf(),
        ensures
            final(self).advanced(old(self)),
            old(self).pos < old(self).tokens@.len() ==> final(self).pos > old(self).pos,
            (r@, final(self).pos as int) == pratt(old(self).ks(), old(self).pos as int, min_bp),
            unexpected_at(old(self).ks(), old(self).pos as int) ==> final(self).diagnostics@.len()
                > old(self).diagnostics@.len(),
            parse_diagnostics_from(final(self).diagnostics@, old(self).diagnostics@.len() as int),
        decreases self.tokens@.len() - self.pos, 2int,
    {
        let lhs = self.parse_prefix();
        self.parse_infix(lhs, min_bp)
    }

    /// The operator loop of the Pratt parser, continuing from `lhs`.
    pub fn parse_infix(&mut self, lhs: Expr, min_bp: u8) -> (r: Expr)
        requires
            old(self).wf(),
        ensures
            final(self).advanced(old(self)),
            parse_diagnostics_from(final(self).diagnostics@, old(self).diagnostics@.len() as int),
            (r@, final(self).pos as int) == infix_spec(
                old(self).ks(),
                old(self).pos as int,
                lhs@,
                min_bp,
            ),
        decreases self.tokens@.len() - self.pos, 1int,
    {
        let ghost start = *self;
        let mut lhs = lhs;
        let ghost first = lhs@;
        loop
            invariant
                self.wf(),
                start.tokens@ == old(self).tokens@,
                start.pos == old(self).pos,
                self.advanced(&start),
                parse_diagnostics_from(self.diagnostics@, start.diagnostics@.len() as int),
                infix_spec(start.ks(), self.pos as int, lhs@, min_bp) == infix_spec(
                    start.ks(),
                    start.pos as int,
                    first,
                    min_bp,
                ),
            ensures
                infix_spec(start.ks(), self.pos as int, lhs@, min_bp) == (lhs@, self.pos as int),
            decreases self.tokens@.len() - self.pos,
        {
            let ghost p = self.pos as int;
            let k = self.peek();
            let (op, lbp, rbp, implicit) = match binding_of(&k) {
                Some(b) => b,
                None => {
                    break ;
                },
            };
            if lbp < min_bp {
                break ;
            }
            let rhs = if implicit {
                let head = self.parse_prefix();
                self.parse_infix(head, rbp)
            } else {
                self.bump();
                self.parse_expr(rbp)
            };
            let ghost prev = lhs@;
            lhs = Expr::Binary { op, left: Box::new(lhs), right: Box::new(rhs) };
            assert(lhs@ == ExprModel::Binary {
                op,
                left: Box::new(prev),
                right: Box::new(rhs@),
            });
            assert(infix_spec(start.ks(), p, prev, min_bp) == infix_spec(
                start.ks(),
                self.pos as int,
                lhs@,
                min_bp,
            ));
        }
        lhs
    }
}

} // verus!

verus! {

/// A whole cell at `p`: `name(params) = body` is a function definition
/// (the `=` is dropped if present), `name = expr` an assignment, and
/// anything else an expression.
pub open spec fn top_spec(ks: Seq<Lexeme>, p: int) -> ExprModel {
    match kind_at(ks, p) {
        Lexeme::Ident(name) => if fn_def_at(ks, p) {
            let (params, e) = params_from(ks, p + 2);
            let b = if kind_at(ks, e) is Assign {
                e + 1
            } else {
                e
            };
            ExprModel::Function { name, params, body: Box::new(tree_of(pratt(ks, b, 0))) }
        } else if kind_at(ks, p + 1) is Assign {
            ExprModel::Assign { name, expr: Box::new(tree_of(pratt(ks, p + 2, 0))) }
        } else {
            tree_of(pratt(ks, p, 0))
        },
        _ => tree_of(pratt(ks, p, 0)),
    }
}

/// The token kinds of a source text.
pub open spec fn lexed_kinds(s: Seq<char>) -> Seq<Lexeme> {
    crate::lexer::lex_spec(s).map_values(|t: crate::lexer::SpecToken| t.kind)
}

impl Parser {
    /// A cell: a function definition, an assignment, or an expression.
    pub fn parse_top(&mut self) -> (r: Expr)
        requires
            old(self).wf(),
        ensures
            final(self).advanced(old(self)),
            parse_diagnostics_from(final(self).diagnostics@, old(self).diagnostics@.len() as int),
            r@ == top_spec(old(self).ks(), old(self).pos as int),
            unexpected_at(old(self).ks(), old(self).pos as int) ==> final(self).diagnostics@.len()
                > old(self).diagnostics@.len(),
    {
        if let TokenKind::Ident(name) = self.peek() {
            if self.looks_like_fn_def() {
                self.bump();
                let params = self.parse_params();
                if let TokenKind::Assign = self.peek() {
                    self.bump();
                }
                let body = self.parse_expr(0);
                return Expr::Function { name, params, body: Box::new(body) };
            }
            if self.pos < self.tokens.len() && self.tokens.len() - self.pos > 1 {
                if let TokenKind::Assign = self.tokens[self.pos + 1].kind {
                    self.bump();
                    self.bump();
                    let e = self.parse_expr(0);
                    return Expr::Assign { name, expr: Box::new(e) };
                }
            }
        }
        self.parse_expr(0)
    }
}

/// Lexes and parses one cell. Parsing never fails: tokens that cannot start
/// an expression become `Error` nodes with a parse diagnostic.
pub fn parse_cell(text: &str) -> (r: ParseResult)
    requires
        text@.len() <= usize::MAX / 4,
    ensures
        r.expr@ == top_spec(lexed_kinds(text@), 0),
        parse_diagnostics_from(r.diagnostics@, 0),
        unexpected_at(lexed_kinds(text@), 0) ==> r.diagnostics@.len() >= 1,
{
    let tokens = lex(text);
    assert(kinds(tokens@) =~= lexed_kinds(text@));
    let mut p = Parser { tokens, pos: 0, diagnostics: Vec::new() };
    let expr = p.parse_top();
    ParseResult { expr, diagnostics: p.diagnostics }
}

} // verus!

verus! {

/// A number followed by a name that is neither a unit nor `to` parses as
/// their product: the same tree as with `*` written between them.
pub proof fn lemma_implicit_product(b: Seq<char>, x: Seq<char>)
    requires
        resolve_unit(x) is None,
        !is_to(x),
    ensures
        ({
            let juxtaposed = seq![Lexeme::Number(b), Lexeme::Ident(x), Lexeme::Eof];
            let starred = seq![Lexeme::Number(b), Lexeme::Star, Lexeme::Ident(x), Lexeme::Eof];
            &&& top_spec(juxtaposed, 0) == ExprModel::Binary {
                op: BinaryOp::Mul,
                left: Box::new(ExprModel::Number(numeral(b))),
                right: Box::new(ExprModel::Ident(x)),
            }
            &&& top_spec(starred, 0) == top_spec(juxtaposed, 0)
        }),
{
    let js = seq![Lexeme::Number(b), Lexeme::Ident(x), Lexeme::Eof];
    let ss = seq![Lexeme::Number(b), Lexeme::Star, Lexeme::Ident(x), Lexeme::Eof];
    let n = ExprModel::Number(numeral(b));
    let v = ExprModel::Ident(x);
    let t = ExprModel::Binary { op: BinaryOp::Mul, left: Box::new(n), right: Box::new(v) };
    assert(prefix_spec(js, 0) == (n, 1int));
    assert(prefix_spec(js, 1) == (v, 2int));
    assert(infix_spec(js, 2, v, 21) == (v, 2int));
    assert(infix_spec(js, 2, t, 0) == (t, 2int));
    assert(infix_spec(js, 1, n, 0) == (t, 2int));
    assert(pratt(js, 0, 0) == (t, 2int));
    assert(prefix_spec(ss, 0) == (n, 1int));
    assert(prefix_spec(ss, 2) == (v, 3int));
    assert(infix_spec(ss, 3, v, 21) == (v, 3int));
    assert(pratt(ss, 2, 21) == (v, 3int));
    assert(infix_spec(ss, 3, t, 0) == (t, 3int));
    assert(infix_spec(ss, 1, n, 0) == (t, 3int));
    assert(pratt(ss, 0, 0) == (t, 3int));
}

} // verus!
