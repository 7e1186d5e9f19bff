use vstd::prelude::*;

verus! {

/// The kinds of token the lexer produces.
#[derive(Debug, Clone, PartialEq)]
pub enum TokenKind {
    Number(String),
    Ident(String),
    Str(String),
    Plus,
    Minus,
    Star,
    Slash,
    Percent,
    Parallel,
    Caret,
    LParen,
    RParen,
    LBracket,
    RBracket,
    LBrace,
    RBrace,
    Comma,
    Colon,
    Assign,
    Hash,
    Eof,
}

/// A token with its byte span `[start, end)` in the source.
#[derive(Debug, Clone, PartialEq)]
pub struct Token {
    pub kind: TokenKind,
    pub start: usize,
    pub end: usize,
}

/// The mathematical value of a token kind: text payloads as character sequences.
pub ghost enum Lexeme {
    Number(Seq<char>),
    Ident(Seq<char>),
    Str(Seq<char>),
    Plus,
    Minus,
    Star,
    Slash,
    Percent,
    Parallel,
    Caret,
    LParen,
    RParen,
    LBracket,
    RBracket,
    LBrace,
    RBrace,
    Comma,
    Colon,
    Assign,
    Hash,
    Eof,
}

pub ghost struct SpecToken {
    pub kind: Lexeme,
    pub start: int,
    pub end: int,
}

impl View for TokenKind {
    type V = Lexeme;

    open spec fn view(&self) -> Lexeme {
        match self {
            TokenKind::Number(s) => Lexeme::Number(s@),
            TokenKind::Ident(s) => Lexeme::Ident(s@),
            TokenKind::Str(s) => Lexeme::Str(s@),
            TokenKind::Plus => Lexeme::Plus,
            TokenKind::Minus => Lexeme::Minus,
            TokenKind::Star => Lexeme::Star,
            TokenKind::Slash => Lexeme::Slash,
            TokenKind::Percent => Lexeme::Percent,
            TokenKind::Parallel => Lexeme::Parallel,
            TokenKind::Caret => Lexeme::Caret,
            TokenKind::LParen => Lexeme::LParen,
            TokenKind::RParen => Lexeme::RParen,
            TokenKind::LBracket => Lexeme::LBracket,
            TokenKind::RBracket => Lexeme::RBracket,
            TokenKind::LBrace => Lexeme::LBrace,
            TokenKind::RBrace => Lexeme::RBrace,
            TokenKind::Comma => Lexeme::Comma,
            TokenKind::Colon => Lexeme::Colon,
            TokenKind::Assign => Lexeme::Assign,
            TokenKind::Hash => Lexeme::Hash,
            TokenKind::Eof => Lexeme::Eof,
        }
    }
}

impl View for Token {
    type V = SpecToken;

    open spec fn view(&self) -> SpecToken {
        SpecToken { kind: self.kind@, start: self.start as int, end: self.end as int }
    }
}

pub open spec fn tokens_view(ts: Seq<Token>) -> Seq<SpecToken> {
    ts.map_values(|t: Token| t@)
}

/// What `char::is_alphanumeric` answers for `c`: the Unicode `Alphabetic`
/// or `Numeric` property.
pub uninterp spec fn alphanumeric(c: char) -> bool;

/// Relies on `char::is_alphanumeric`, which depends on the character alone
/// and, for ASCII, holds exactly of letters and digits.
#[verifier::external_body]
fn is_alphanumeric(c: char) -> (r: bool)
    ensures
        r == alphanumeric(c),
        (c as u32) <= 0x7f ==> r == (('a' <= c <= 'z') || ('A' <= c <= 'Z') || ('0' <= c <= '9')),
{
    c.is_alphanumeric()
}

/// Number of bytes of the UTF-8 encoding of `c`.
pub open spec fn utf8_len(c: char) -> int {
    if (c as u32) < 0x80 {
        1
    } else if (c as u32) < 0x800 {
        2
    } else if (c as u32) < 0x10000 {
        3
    } else {
        4
    }
}

fn char_len(c: char) -> (r: usize)
    ensures
        r == utf8_len(c),
{
    let v = c as u32;
    if v < 0x80 {
        1
    } else if v < 0x800 {
        2
    } else if v < 0x10000 {
        3
    } else {
        4
    }
}

/// Number of bytes of the UTF-8 encoding of `s`.
pub open spec fn byte_len(s: Seq<char>) -> int
    decreases s.len(),
{
    if s.len() == 0 {
        0
    } else {
        byte_len(s.drop_last()) + utf8_len(s.last())
    }
}

pub open spec fn is_digit(c: char) -> bool {
    '0' <= c <= '9'
}

/// Digits, `.` and `_`: the characters a number literal runs over.
pub open spec fn number_char(c: char) -> bool {
    is_digit(c) || c == '.' || c == '_'
}

/// The non-ASCII characters allowed in identifiers.
pub open spec fn unicode_ident_char(c: char) -> bool {
    c == 'Ω' || c == 'μ' || c == 'π' || c == '°'
}

pub open spec fn ident_start(c: char) -> bool {
    ('a' <= c <= 'z') || ('A' <= c <= 'Z') || c == '_' || unicode_ident_char(c)
}

/// A letter or digit: decided directly for ASCII, by the Unicode
/// `Alphabetic` and `Numeric` properties beyond.
pub open spec fn letter_or_digit(c: char) -> bool {
    if (c as u32) <= 0x7f {
        ('a' <= c <= 'z') || ('A' <= c <= 'Z') || ('0' <= c <= '9')
    } else {
        alphanumeric(c)
    }
}

pub open spec fn ident_char(c: char) -> bool {
    letter_or_digit(c) || c == '_' || unicode_ident_char(c)
}

/// The punctuation that is one character and one token.
pub open spec fn punct(c: char) -> Option<Lexeme> {
    if c == '+' {
        Some(Lexeme::Plus)
    } else if c == '-' {
        Some(Lexeme::Minus)
    } else if c == '*' {
        Some(Lexeme::Star)
    } else if c == '%' {
        Some(Lexeme::Percent)
    } else if c == '^' {
        Some(Lexeme::Caret)
    } else if c == '(' {
        Some(Lexeme::LParen)
    } else if c == ')' {
        Some(Lexeme::RParen)
    } else if c == '[' {
        Some(Lexeme::LBracket)
    } else if c == ']' {
        Some(Lexeme::RBracket)
    } else if c == '{' {
        Some(Lexeme::LBrace)
    } else if c == '}' {
        Some(Lexeme::RBrace)
    } else if c == ',' {
        Some(Lexeme::Comma)
    } else if c == ':' {
        Some(Lexeme::Colon)
    } else if c == '=' {
        Some(Lexeme::Assign)
    } else {
        None
    }
}

/// The end of the run of number characters (`number == true`) or identifier
/// characters (`number == false`) that starts at `j`.
pub open spec fn run_end(s: Seq<char>, j: int, number: bool) -> int
    decreases s.len() - j,
{
    if j < 0 || j >= s.len() {
        j
    } else if (number && number_char(s[j])) || (!number && ident_char(s[j])) {
        run_end(s, j + 1, number)
    } else {
        j
    }
}

/// The index of the first `"` at or after `j`, or the end of `s`.
pub open spec fn quote_end(s: Seq<char>, j: int) -> int
    decreases s.len() - j,
{
    if j < 0 || j >= s.len() {
        j
    } else if s[j] == '"' {
        j
    } else {
        quote_end(s, j + 1)
    }
}

pub proof fn lemma_run_end(s: Seq<char>, j: int, number: bool)
    requires
        0 <= j <= s.len(),
    ensures
        j <= run_end(s, j, number) <= s.len(),
    decreases s.len() - j,
{
    if j < s.len() {
        lemma_run_end(s, j + 1, number);
    }
}

pub proof fn lemma_quote_end(s: Seq<char>, j: int)
    requires
        0 <= j <= s.len(),
    ensures
        j <= quote_end(s, j) <= s.len(),
    decreases s.len() - j,
{
    if j < s.len() {
        lemma_quote_end(s, j + 1);
    }
}

/// One lexing step at character `i` (not a `#`, `i < s.len()`): the token it
/// yields, if any, and the index where lexing resumes.
pub open spec fn step(s: Seq<char>, i: int) -> (Option<Lexeme>, int) {
    let c = s[i];
    if is_digit(c) {
        let j = run_end(s, i + 1, true);
        (Some(Lexeme::Number(s.subrange(i, j))), j)
    } else if ident_start(c) {
        let j = run_end(s, i + 1, false);
        (Some(Lexeme::Ident(s.subrange(i, j))), j)
    } else if c == '"' {
        let j = quote_end(s, i + 1);
        (Some(Lexeme::Str(s.subrange(i + 1, j))), if j < s.len() { j + 1 } else { j })
    } else if c == '/' {
        if i + 1 < s.len() && s[i + 1] == '/' {
            (Some(Lexeme::Parallel), i + 2)
        } else {
            (Some(Lexeme::Slash), i + 1)
        }
    } else {
        (punct(c), i + 1)
    }
}

pub proof fn lemma_step(s: Seq<char>, i: int)
    requires
        0 <= i < s.len(),
    ensures
        i < step(s, i).1 <= s.len(),
{
    lemma_run_end(s, i + 1, true);
    lemma_run_end(s, i + 1, false);
    lemma_quote_end(s, i + 1);
}

/// The tokens of `s` from character `i` on, where `b` is the byte offset of
/// character `i`. A `#` ends the stream; whitespace and unrecognised
/// characters are skipped; the stream always ends with `Eof`.
pub open spec fn lex_from(s: Seq<char>, i: int, b: int) -> Seq<SpecToken>
    decreases s.len() - i,
    via lex_from_decreases
{
    if i < 0 || i >= s.len() || s[i] == '#' {
        seq![SpecToken { kind: Lexeme::Eof, start: b, end: b }]
    } else {
        let (k, j) = step(s, i);
        let e = b + byte_len(s.subrange(i, j));
        match k {
            Some(kind) => seq![SpecToken { kind, start: b, end: e }] + lex_from(s, j, e),
            None => lex_from(s, j, e),
        }
    }
}

#[via_fn]
proof fn lex_from_decreases(s: Seq<char>, i: int, b: int) {
    if 0 <= i < s.len() {
        lemma_step(s, i);
    }
}

/// The token stream of a whole source text.
pub open spec fn lex_spec(s: Seq<char>) -> Seq<SpecToken> {
    lex_from(s, 0, 0)
}

} // verus!

verus! {

pub open spec fn opt_view(k: Option<TokenKind>) -> Option<Lexeme> {
    match k {
        Some(t) => Some(t@),
        None => None,
    }
}

fn punct_kind(c: char) -> (r: Option<TokenKind>)
    ensures
        opt_view(r) == punct(c),
{
    match c {
        '+' => Some(TokenKind::Plus),
        '-' => Some(TokenKind::Minus),
        '*' => Some(TokenKind::Star),
        '%' => Some(TokenKind::Percent),
        '^' => Some(TokenKind::Caret),
        '(' => Some(TokenKind::LParen),
        ')' => Some(TokenKind::RParen),
        '[' => Some(TokenKind::LBracket),
        ']' => Some(TokenKind::RBracket),
        '{' => Some(TokenKind::LBrace),
        '}' => Some(TokenKind::RBrace),
        ',' => Some(TokenKind::Comma),
        ':' => Some(TokenKind::Colon),
        '=' => Some(TokenKind::Assign),
        _ => None,
    }
}

proof fn lemma_byte_len_push(s: Seq<char>, i: int, j: int)
    requires
        0 <= i <= j < s.len(),
    ensures
        byte_len(s.subrange(i, j + 1)) == byte_len(s.subrange(i, j)) + utf8_len(s[j]),
{
    assert(s.subrange(i, j + 1).drop_last() =~= s.subrange(i, j));
}

proof fn lemma_utf8_len_bounds(c: char)
    ensures
        1 <= utf8_len(c) <= 4,
{
}

/// Scans a run of number or identifier characters whose first character is
/// at `i`; returns where it ends and its length in bytes.
fn scan_run(input: &str, n: usize, i: usize, number: bool) -> (r: (usize, usize))
    requires
        n == input@.len(),
        n <= usize::MAX / 4,
        i < n,
    ensures
        r.0 == run_end(input@, i + 1, number),
        r.1 == byte_len(input@.subrange(i as int, r.0 as int)),
        r.1 <= 4 * (r.0 - i),
{
    let ghost s = input@;
    let c0 = input.get_char(i);
    let mut j: usize = i + 1;
    let mut e: usize = char_len(c0);
    proof {
        lemma_byte_len_push(s, i as int, i as int);
        assert(s.subrange(i as int, i as int).len() == 0);
    }
    while j < n
        invariant
            n == s.len(),
            n <= usize::MAX / 4,
            s == input@,
            i < j <= n,
            run_end(s, i + 1, number) == run_end(s, j as int, number),
            e == byte_len(s.subrange(i as int, j as int)),
            e <= 4 * (j - i),
        decreases n - j,
    {
        let c = input.get_char(j);
        let more = if number {
            (c >= '0' && c <= '9') || c == '.' || c == '_'
        } else {
            is_alphanumeric(c) || c == '_' || c == 'Ω' || c == 'μ' || c == 'π' || c == '°'
        };
        if !more {
            return (j, e);
        }
        proof {
            lemma_byte_len_push(s, i as int, j as int);
            lemma_utf8_len_bounds(c);
        }
        e = e + char_len(c);
        j = j + 1;
    }
    (j, e)
}

/// Scans a string literal whose opening quote is at `i`; returns where lexing
/// resumes and the byte length of what was consumed.
fn scan_quote(input: &str, n: usize, i: usize) -> (r: (usize, usize, usize))
    requires
        n == input@.len(),
        n <= usize::MAX / 4,
        i < n,
        input@[i as int] == '"',
    ensures
        r.0 == quote_end(input@, i + 1),
        i < r.0 <= n,
        r.1 == (if r.0 < n { r.0 + 1 } else { r.0 as int }),
        r.2 == byte_len(input@.subrange(i as int, r.1 as int)),
        r.2 <= 4 * (r.1 - i),
{
    let ghost s = input@;
    let mut j: usize = i + 1;
    let mut e: usize = 1;
    proof {
        lemma_byte_len_push(s, i as int, i as int);
        assert(s.subrange(i as int, i as int).len() == 0);
    }
    while j < n
        invariant
            n == s.len(),
            n <= usize::MAX / 4,
            s == input@,
            i < j <= n,
            quote_end(s, i + 1) == quote_end(s, j as int),
            e == byte_len(s.subrange(i as int, j as int)),
            e <= 4 * (j - i),
        decreases n - j,
    {
        let c = input.get_char(j);
        proof {
            lemma_byte_len_push(s, i as int, j as int);
            lemma_utf8_len_bounds(c);
        }
        if c == '"' {
            return (j, j + 1, e + 1);
        }
        e = e + char_len(c);
        j = j + 1;
    }
    (j, j, e)
}

/// One lexing step at character `i`, which is not `#`.
fn lex_step(input: &str, n: usize, i: usize) -> (r: (Option<TokenKind>, usize, usize))
    requires
        n == input@.len(),
        n <= usize::MAX / 4,
        i < n,
        input@[i as int] != '#',
    ensures
        opt_view(r.0) == step(input@, i as int).0,
        r.1 == step(input@, i as int).1,
        r.2 == byte_len(input@.subrange(i as int, r.1 as int)),
        i < r.1 <= n,
        r.2 <= 4 * (r.1 - i),
{
    let ghost s = input@;
    proof {
        lemma_step(s, i as int);
    }
    let c = input.get_char(i);
    proof {
        lemma_byte_len_push(s, i as int, i as int);
        assert(s.subrange(i as int, i as int).len() == 0);
        lemma_utf8_len_bounds(c);
    }
    if c >= '0' && c <= '9' {
        let (j, e) = scan_run(input, n, i, true);
        let text = String::from_str(input.substring_char(i, j));
        (Some(TokenKind::Number(text)), j, e)
    } else if (c >= 'a' && c <= 'z') || (c >= 'A' && c <= 'Z') || c == '_' || c == 'Ω' || c
        == 'μ' || c == 'π' || c == '°' {
        let (j, e) = scan_run(input, n, i, false);
        let text = String::from_str(input.substring_char(i, j));
        (Some(TokenKind::Ident(text)), j, e)
    } else if c == '"' {
        let (j, next, e) = scan_quote(input, n, i);
        let text = String::from_str(input.substring_char(i + 1, j));
        (Some(TokenKind::Str(text)), next, e)
    } else if c == '/' {
        if i + 1 < n && input.get_char(i + 1) == '/' {
            proof {
                lemma_byte_len_push(s, i as int, i + 1);
            }
            (Some(TokenKind::Parallel), i + 2, 2)
        } else {
            (Some(TokenKind::Slash), i + 1, 1)
        }
    } else {
        (punct_kind(c), i + 1, char_len(c))
    }
}

/// Splits a source text into tokens, ending with `Eof`. Spans are byte offsets.
pub fn lex(input: &str) -> (toks: Vec<Token>)
    requires
        input@.len() <= usize::MAX / 4,
    ensures
        tokens_view(toks@) == lex_spec(input@),
{
    let ghost s = input@;
    let n = input.unicode_len();
    let mut toks: Vec<Token> = Vec::new();
    let mut i: usize = 0;
    let mut b: usize = 0;
    while i < n
        invariant
            n == s.len(),
            s == input@,
            n <= usize::MAX / 4,
            i <= n,
            b <= 4 * i,
            tokens_view(toks@) + lex_from(s, i as int, b as int) == lex_spec(s),
        decreases n - i,
    {
        let c = input.get_char(i);
        if c == '#' {
            let ghost before = toks@;
            toks.push(Token { kind: TokenKind::Eof, start: b, end: b });
            assert(tokens_view(toks@) =~= tokens_view(before).push(toks@.last()@));
            assert(tokens_view(toks@) =~= tokens_view(before) + lex_from(s, i as int, b as int));
            return toks;
        }
        let (kind, j, e) = lex_step(input, n, i);
        let ghost before = toks@;
        match kind {
            Some(k) => {
                toks.push(Token { kind: k, start: b, end: b + e });
                assert(tokens_view(toks@) =~= tokens_view(before).push(toks@.last()@));
                assert(tokens_view(toks@) + lex_from(s, j as int, (b + e) as int) =~= tokens_view(
                    before,
                ) + lex_from(s, i as int, b as int));
            },
            None => {},
        }
        i = j;
        b = b + e;
    }
    let ghost before = toks@;
    toks.push(Token { kind: TokenKind::Eof, start: b, end: b });
    assert(tokens_view(toks@) =~= tokens_view(before).push(toks@.last()@));
    assert(tokens_view(toks@) =~= tokens_view(before) + lex_from(s, i as int, b as int));
    toks
}

} // verus!
