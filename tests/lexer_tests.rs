use calc_core::lexer::{lex, TokenKind};

#[test]
fn lex_numbers_idents_and_symbols() {
    let toks = lex("10kΩ // 5 Ω # comment");
    assert!(matches!(toks[0].kind, TokenKind::Number(_)));
    assert!(matches!(toks[1].kind, TokenKind::Ident(ref s) if s == "kΩ"));
    assert!(matches!(toks[2].kind, TokenKind::Parallel));
    assert!(matches!(toks[3].kind, TokenKind::Number(_)));
    assert!(matches!(toks[4].kind, TokenKind::Ident(ref s) if s == "Ω"));
}

#[test]
fn lex_unicode_idents() {
    let toks = lex("π μ ° Ω ohm");
    assert!(matches!(toks[0].kind, TokenKind::Ident(ref s) if s == "π"));
    assert!(matches!(toks[1].kind, TokenKind::Ident(ref s) if s == "μ"));
    assert!(matches!(toks[2].kind, TokenKind::Ident(ref s) if s == "°"));
    assert!(matches!(toks[3].kind, TokenKind::Ident(ref s) if s == "Ω"));
    assert!(matches!(toks[4].kind, TokenKind::Ident(ref s) if s == "ohm"));
}

#[test]
fn lex_spans_are_byte_offsets() {
    let toks = lex("10kΩ // 5");
    assert_eq!((toks[0].start, toks[0].end), (0, 2));
    // Ω takes two bytes in UTF-8
    assert_eq!((toks[1].start, toks[1].end), (2, 5));
    assert_eq!((toks[2].start, toks[2].end), (6, 8));
    assert_eq!((toks[3].start, toks[3].end), (9, 10));
    assert!(matches!(toks[4].kind, TokenKind::Eof));
    assert_eq!((toks[4].start, toks[4].end), (10, 10));
    assert_eq!(toks.len(), 5);
}

#[test]
fn lex_comment_and_empty_input_end_in_eof() {
    let toks = lex("");
    assert_eq!(toks.len(), 1);
    assert!(matches!(toks[0].kind, TokenKind::Eof));

    let toks = lex("   # only a comment");
    assert_eq!(toks.len(), 1);
    assert!(matches!(toks[0].kind, TokenKind::Eof));
    assert_eq!(toks[0].start, 3);
}

#[test]
fn lex_slash_string_and_punctuation() {
    let toks = lex("a/b \"hi there\" +-*%^()[]{},:=");
    assert!(matches!(toks[1].kind, TokenKind::Slash));
    assert!(matches!(toks[3].kind, TokenKind::Str(ref s) if s == "hi there"));
    let kinds: Vec<TokenKind> = toks[4..].iter().map(|t| t.kind.clone()).collect();
    assert_eq!(
        kinds,
        vec![
            TokenKind::Plus,
            TokenKind::Minus,
            TokenKind::Star,
            TokenKind::Percent,
            TokenKind::Caret,
            TokenKind::LParen,
            TokenKind::RParen,
            TokenKind::LBracket,
            TokenKind::RBracket,
            TokenKind::LBrace,
            TokenKind::RBrace,
            TokenKind::Comma,
            TokenKind::Colon,
            TokenKind::Assign,
            TokenKind::Eof,
        ]
    );
}

#[test]
fn lex_number_runs_keep_separators_and_skip_unknown_chars() {
    let toks = lex("1_000.5x ~ é2");
    assert!(matches!(toks[0].kind, TokenKind::Number(ref s) if s == "1_000.5"));
    assert!(matches!(toks[1].kind, TokenKind::Ident(ref s) if s == "x"));
    // `~` and `é` start nothing; the digit after `é` is a number
    assert!(matches!(toks[2].kind, TokenKind::Number(ref s) if s == "2"));
    assert!(matches!(toks[3].kind, TokenKind::Eof));
}

#[test]
fn lex_identifier_continues_with_unicode_letters() {
    let toks = lex("résumé");
    assert!(matches!(toks[0].kind, TokenKind::Ident(ref s) if s == "résumé"));
}
