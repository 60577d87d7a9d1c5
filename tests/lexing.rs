use deno_bindgen2_common::error::ParseError;
use deno_bindgen2_common::lex::{lex, Token};

fn ident(s: &str) -> Token {
    Token::Ident(s.to_string())
}

#[test]
fn lexes_a_signature() {
    let toks = lex("pub fn f(a: u8) -> [u8; 8] {}").unwrap();
    assert_eq!(
        toks,
        vec![
            ident("pub"),
            ident("fn"),
            ident("f"),
            Token::Open('('),
            ident("a"),
            Token::Punct(':'),
            ident("u8"),
            Token::Close(')'),
            Token::Punct('-'),
            Token::Punct('>'),
            Token::Open('['),
            ident("u8"),
            Token::Punct(';'),
            Token::Int(8),
            Token::Close(']'),
            Token::Open('{'),
            Token::Close('}'),
        ]
    );
}

#[test]
fn drops_comments_and_reads_literals() {
    let toks = lex("// line\n /* block */ 'a 'b' '\\n' \"s\\\"q\\n\" 42usize").unwrap();
    assert_eq!(
        toks,
        vec![
            Token::Lifetime("a".to_string()),
            Token::Lit("b".to_string()),
            Token::Lit("n".to_string()),
            Token::Lit("s\"q\n".to_string()),
            Token::Int(42),
        ]
    );
}

#[test]
fn lexical_errors() {
    assert_eq!(lex("\"open"), Err(ParseError::UnterminatedLiteral));
    assert_eq!(lex("/* open"), Err(ParseError::UnterminatedLiteral));
    assert_eq!(lex("(]"), Err(ParseError::Unbalanced));
    assert_eq!(lex("("), Err(ParseError::Unbalanced));
    assert_eq!(lex("`"), Err(ParseError::UnknownCharacter));
    assert_eq!(lex("99999999999999999999999"), Err(ParseError::ArrayLength));
}
