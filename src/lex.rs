//! The tokenizer: source text to identifiers, punctuation, literals and
//! delimiters. Whitespace and comments are dropped.
use vstd::prelude::*;
use crate::error::ParseError;

verus! {

broadcast use vstd::string::group_string_axioms;

#[derive(Clone, Debug, PartialEq, Eq)]
pub enum Token {
    Ident(String),
    Punct(char),
    /// A lifetime `'a`, without its quote.
    Lifetime(String),
    /// A string or character literal, its contents with escapes resolved.
    Lit(String),
    /// An integer literal; a type suffix is dropped.
    Int(usize),
    /// `(`, `[` or `{`
    Open(char),
    /// `)`, `]` or `}`
    Close(char),
}

pub open spec fn is_ident_start(c: char) -> bool {
    ('a' <= c && c <= 'z') || ('A' <= c && c <= 'Z') || c == '_'
}

pub open spec fn is_digit(c: char) -> bool {
    '0' <= c && c <= '9'
}

pub open spec fn is_ident_continue(c: char) -> bool {
    is_ident_start(c) || is_digit(c)
}

/// Relies on `String::push`: the character is appended.
#[verifier::external_body]
pub(crate) fn push_char(s: &mut String, c: char)
    ensures
        final(s)@ == old(s)@.push(c),
{
    s.push(c);
}

/// The characters of `s`.
pub fn chars_of(s: &str) -> (r: Vec<char>)
    ensures
        r@ == s@,
{
    let mut v: Vec<char> = Vec::new();
    for c in iter: s.chars()
        invariant
            v@ == iter.seq().subrange(0, iter.index() as int),
            iter.seq() == s@,
    {
        v.push(c);
    }
    assert(v@ =~= s@);
    v
}

/// The delimiter that closes `open`.
pub open spec fn closing(open: char) -> char {
    if open == '(' { ')' } else if open == '[' { ']' } else { '}' }
}

/// The mathematical value of a [`Token`].
pub enum TokenModel {
    Ident(Seq<char>),
    Punct(char),
    Lifetime(Seq<char>),
    Lit(Seq<char>),
    Int(nat),
    Open(char),
    Close(char),
}

impl Token {
    pub open spec fn model(self) -> TokenModel {
        match self {
            Token::Ident(s) => TokenModel::Ident(s@),
            Token::Punct(c) => TokenModel::Punct(c),
            Token::Lifetime(s) => TokenModel::Lifetime(s@),
            Token::Lit(s) => TokenModel::Lit(s@),
            Token::Int(n) => TokenModel::Int(n as nat),
            Token::Open(c) => TokenModel::Open(c),
            Token::Close(c) => TokenModel::Close(c),
        }
    }
}

pub open spec fn token_models(v: Seq<Token>) -> Seq<TokenModel> {
    v.map_values(|t: Token| t.model())
}

pub open spec fn is_punct_char(c: char) -> bool {
    c == '#' || c == '!' || c == ':' || c == ',' || c == ';' || c == '<' || c == '>' || c == '&' || c == '*'
        || c == '-' || c == '=' || c == '.' || c == '+' || c == '/' || c == '%' || c == '^' || c == '|' || c == '?'
        || c == '@' || c == '$' || c == '~'
}

/// The end of the run of identifier characters that starts at `i`.
pub open spec fn ident_end(s: Seq<char>, i: int) -> int
    decreases s.len() - i,
{
    if 0 <= i < s.len() && is_ident_continue(s[i]) {
        ident_end(s, i + 1)
    } else {
        i
    }
}

/// The end of the run of decimal digits that starts at `i`.
pub open spec fn digits_end(s: Seq<char>, i: int) -> int
    decreases s.len() - i,
{
    if 0 <= i < s.len() && is_digit(s[i]) {
        digits_end(s, i + 1)
    } else {
        i
    }
}

/// The value of the decimal digits in `i..j`.
pub open spec fn digits_value(s: Seq<char>, i: int, j: int) -> nat
    decreases j - i,
{
    if j <= i {
        0
    } else {
        digits_value(s, i, j - 1) * 10 + ((s[j - 1] as u32 - '0' as u32) as nat)
    }
}

/// The index of the line break at or after `i`, or the end of the text.
pub open spec fn line_end(s: Seq<char>, i: int) -> int
    decreases s.len() - i,
{
    if 0 <= i < s.len() && s[i] != '\n' {
        line_end(s, i + 1)
    } else {
        i
    }
}

/// The index after the first `*/` at or after `i`.
pub open spec fn comment_end(s: Seq<char>, i: int) -> Option<int>
    decreases s.len() - i,
{
    if i < 0 || i >= s.len() {
        None
    } else if s[i] == '*' && i + 1 < s.len() && s[i + 1] == '/' {
        Some(i + 2)
    } else {
        comment_end(s, i + 1)
    }
}

pub open spec fn unescape(e: char) -> char {
    if e == 'n' { '\n' } else if e == 't' { '\t' } else { e }
}

/// The contents of a string literal read from `i` (after its opening
/// quote) onto `acc`, and the index after the closing quote.
pub open spec fn string_lit(s: Seq<char>, i: int, acc: Seq<char>) -> Option<(Seq<char>, int)>
    decreases s.len() - i,
{
    if i < 0 || i >= s.len() {
        None
    } else if s[i] == '"' {
        Some((acc, i + 1))
    } else if s[i] == '\\' && i + 1 < s.len() {
        string_lit(s, i + 2, acc.push(unescape(s[i + 1])))
    } else {
        string_lit(s, i + 1, acc.push(s[i]))
    }
}

/// The tokens of `s` from `i` on, after `acc`, with the closing delimiters
/// `stack` still expected.
pub open spec fn lex_from(s: Seq<char>, i: int, stack: Seq<char>, acc: Seq<TokenModel>) -> Result<
    Seq<TokenModel>,
    ParseError,
>
    decreases s.len() - i,
{
    if i < 0 || i >= s.len() {
        if stack.len() > 0 {
            Err(ParseError::Unbalanced)
        } else {
            Ok(acc)
        }
    } else {
        let c = s[i];
        if c == ' ' || c == '\t' || c == '\n' || c == '\r' || c == '\u{feff}' {
            lex_from(s, i + 1, stack, acc)
        } else if c == '/' && i + 1 < s.len() && s[i + 1] == '/' {
            let e = line_end(s, i + 2);
            if i < e <= s.len() { lex_from(s, e, stack, acc) } else { Err(ParseError::Unexpected) }
        } else if c == '/' && i + 1 < s.len() && s[i + 1] == '*' {
            match comment_end(s, i + 2) {
                None => Err(ParseError::UnterminatedLiteral),
                Some(e) => if i < e <= s.len() { lex_from(s, e, stack, acc) } else { Err(ParseError::Unexpected) },
            }
        } else if is_ident_start(c) {
            let e = ident_end(s, i + 1);
            if i < e <= s.len() {
                lex_from(s, e, stack, acc.push(TokenModel::Ident(s.subrange(i, e))))
            } else {
                Err(ParseError::Unexpected)
            }
        } else if is_digit(c) {
            let e = digits_end(s, i + 1);
            if digits_value(s, i, e) > usize::MAX {
                Err(ParseError::ArrayLength)
            } else {
                let e2 = ident_end(s, e);
                if i < e2 <= s.len() {
                    lex_from(s, e2, stack, acc.push(TokenModel::Int(digits_value(s, i, e))))
                } else {
                    Err(ParseError::Unexpected)
                }
            }
        } else if c == '"' {
            match string_lit(s, i + 1, Seq::empty()) {
                None => Err(ParseError::UnterminatedLiteral),
                Some((t, e)) => if i < e <= s.len() {
                    lex_from(s, e, stack, acc.push(TokenModel::Lit(t)))
                } else {
                    Err(ParseError::Unexpected)
                },
            }
        } else if c == '\'' {
            if s.len() - i > 2 && s[i + 2] == '\'' {
                lex_from(s, i + 3, stack, acc.push(TokenModel::Lit(seq![s[i + 1]])))
            } else if s.len() - i > 3 && s[i + 1] == '\\' && s[i + 3] == '\'' {
                lex_from(s, i + 4, stack, acc.push(TokenModel::Lit(seq![s[i + 2]])))
            } else {
                let e = ident_end(s, i + 1);
                if i < e <= s.len() {
                    lex_from(s, e, stack, acc.push(TokenModel::Lifetime(s.subrange(i + 1, e))))
                } else {
                    Err(ParseError::Unexpected)
                }
            }
        } else if c == '(' || c == '[' || c == '{' {
            lex_from(s, i + 1, stack.push(closing(c)), acc.push(TokenModel::Open(c)))
        } else if c == ')' || c == ']' || c == '}' {
            if stack.len() == 0 || stack.last() != c {
                Err(ParseError::Unbalanced)
            } else {
                lex_from(s, i + 1, stack.drop_last(), acc.push(TokenModel::Close(c)))
            }
        } else if is_punct_char(c) {
            lex_from(s, i + 1, stack, acc.push(TokenModel::Punct(c)))
        } else {
            Err(ParseError::UnknownCharacter)
        }
    }
}

/// The tokens of source text `s`.
pub open spec fn lex_spec(s: Seq<char>) -> Result<Seq<TokenModel>, ParseError> {
    lex_from(s, 0, Seq::empty(), Seq::empty())
}

proof fn lemma_digits_monotone(s: Seq<char>, i: int, j: int, k: int)
    requires
        i <= j <= k,
    ensures
        digits_value(s, i, j) <= digits_value(s, i, k),
    decreases k - j,
{
    if j < k {
        lemma_digits_monotone(s, i, j, k - 1);
    }
}

/// Splits source text into tokens: whitespace and comments are dropped.
/// Fails on an unterminated literal or comment, a character that is not
/// part of the grammar, an integer that does not fit in `usize`, or
/// unbalanced delimiters.
pub fn lex(src: &str) -> (r: Result<Vec<Token>, ParseError>)
    ensures
        r matches Ok(toks) ==> lex_spec(src@) == Ok::<Seq<TokenModel>, ParseError>(token_models(toks@)),
        r matches Err(e) ==> lex_spec(src@) == Err::<Seq<TokenModel>, ParseError>(e),
{
    let cs = chars_of(src);
    let n = cs.len();
    let mut toks: Vec<Token> = Vec::new();
    let mut stack: Vec<char> = Vec::new();
    let mut i: usize = 0;
    proof {
        assert(token_models(toks@) =~= Seq::<TokenModel>::empty());
        assert(stack@ =~= Seq::<char>::empty());
    }
    while i < n
        invariant
            n == cs.len(),
            cs@ == src@,
            i <= n,
            lex_spec(src@) == lex_from(cs@, i as int, stack@, token_models(toks@)),
        decreases n - i,
    {
        let c = cs[i];
        let ghost t0 = toks@;
        let ghost i0 = i as int;
        proof {
            assert(token_models(t0) == t0.map_values(|t: Token| t.model()));
        }
        if c == ' ' || c == '\t' || c == '\n' || c == '\r' || c == '\u{feff}' {
            i = i + 1;
        } else if c == '/' && i + 1 < n && cs[i + 1] == '/' {
            i = i + 2;
            while i < n && cs[i] != '\n'
                invariant
                    n == cs.len(),
                    cs@ == src@,
                    0 <= i0 < n,
                    c == cs@[i0],
                    lex_spec(src@) == lex_from(cs@, i0, stack@, token_models(toks@)),
                    i0 + 2 <= i <= n,
                    line_end(cs@, i0 + 2) == line_end(cs@, i as int),
                decreases n - i,
            {
                i = i + 1;
            }
        } else if c == '/' && i + 1 < n && cs[i + 1] == '*' {
            i = i + 2;
            let mut closed = false;
            while i < n && !closed
                invariant
                    n == cs.len(),
                    cs@ == src@,
                    0 <= i0 < n,
                    c == cs@[i0],
                    lex_spec(src@) == lex_from(cs@, i0, stack@, token_models(toks@)),
                    i0 < i <= n,
                    !closed ==> comment_end(cs@, i0 + 2) == comment_end(cs@, i as int),
                    closed ==> comment_end(cs@, i0 + 2) == Some(i as int),
                decreases n - i,
            {
                if cs[i] == '*' && i + 1 < n && cs[i + 1] == '/' {
                    closed = true;
                    i = i + 2;
                } else {
                    i = i + 1;
                }
            }
            if !closed {
                return Err(ParseError::UnterminatedLiteral);
            }
        } else if ('a' <= c && c <= 'z') || ('A' <= c && c <= 'Z') || c == '_' {
            let mut s = String::new();
            push_char(&mut s, c);
            i = i + 1;
            assert(s@ =~= cs@.subrange(i0, i as int));
            while i < n && (('a' <= cs[i] && cs[i] <= 'z') || ('A' <= cs[i] && cs[i] <= 'Z') || cs[i] == '_' || (
            '0' <= cs[i] && cs[i] <= '9'))
                invariant
                    n == cs.len(),
                    cs@ == src@,
                    0 <= i0 < n,
                    c == cs@[i0],
                    lex_spec(src@) == lex_from(cs@, i0, stack@, token_models(toks@)),
                    i0 < i <= n,
                    s@ == cs@.subrange(i0, i as int),
                    ident_end(cs@, i0 + 1) == ident_end(cs@, i as int),
                decreases n - i,
            {
                let ghost s0 = s@;
                push_char(&mut s, cs[i]);
                assert(s@ == s0.push(cs@[i as int]));
                i = i + 1;
                assert(s@ =~= cs@.subrange(i0, i as int));
            }
            toks.push(Token::Ident(s));
        } else if '0' <= c && c <= '9' {
            let mut v: usize = (c as u32 - '0' as u32) as usize;
            i = i + 1;
            proof {
                assert(digits_value(cs@, i0, i0) == 0);
                assert(digits_value(cs@, i0, i as int) == v);
            }
            while i < n && '0' <= cs[i] && cs[i] <= '9'
                invariant
                    n == cs.len(),
                    cs@ == src@,
                    0 <= i0 < n,
                    c == cs@[i0],
                    lex_spec(src@) == lex_from(cs@, i0, stack@, token_models(toks@)),
                    i0 < i <= n,
                    v == digits_value(cs@, i0, i as int),
                    '0' <= c && c <= '9',
                    digits_end(cs@, i0 + 1) == digits_end(cs@, i as int),
                decreases n - i,
            {
                let d = (cs[i] as u32 - '0' as u32) as usize;
                if v > (usize::MAX - d) / 10 {
                    proof {
                        assert(v * 10 + d > usize::MAX) by (nonlinear_arith)
                            requires v > (usize::MAX - d) / 10, d <= 9;
                        assert(d == ((cs@[i as int] as u32 - '0' as u32) as nat));
                        assert(digits_value(cs@, i0, i + 1) == digits_value(cs@, i0, i as int) * 10 + ((cs@[i as int] as u32 - '0' as u32) as nat));
                        assert(digits_value(cs@, i0, i + 1) == v * 10 + d);
                        lemma_digits_end_ge(cs@, i + 1);
                        assert(digits_end(cs@, i as int) == digits_end(cs@, i + 1));
                        lemma_digits_monotone(cs@, i0, i + 1, digits_end(cs@, i as int));
                        assert(digits_value(cs@, i0, digits_end(cs@, i0 + 1)) > usize::MAX);
                        assert(is_digit(cs@[i0]) && !is_ident_start(cs@[i0]));
                        assert(lex_from(cs@, i0, stack@, token_models(toks@)) == Err::<Seq<TokenModel>, ParseError>(
                            ParseError::ArrayLength,
                        ));
                    }
                    return Err(ParseError::ArrayLength);
                }
                proof {
                    assert(v * 10 + d <= usize::MAX) by (nonlinear_arith)
                        requires v <= (usize::MAX - d) / 10, d <= 9;
                }
                v = v * 10 + d;
                i = i + 1;
            }
            let ghost e = i as int;
            while i < n && (('a' <= cs[i] && cs[i] <= 'z') || ('A' <= cs[i] && cs[i] <= 'Z') || cs[i] == '_' || (
            '0' <= cs[i] && cs[i] <= '9'))
                invariant
                    n == cs.len(),
                    cs@ == src@,
                    0 <= i0 < n,
                    c == cs@[i0],
                    lex_spec(src@) == lex_from(cs@, i0, stack@, token_models(toks@)),
                    i0 < i <= n,
                    ident_end(cs@, e) == ident_end(cs@, i as int),
                decreases n - i,
            {
                i = i + 1;
            }
            toks.push(Token::Int(v));
        } else if c == '"' {
            let mut s = String::new();
            i = i + 1;
            let mut closed = false;
            while i < n && !closed
                invariant
                    n == cs.len(),
                    cs@ == src@,
                    0 <= i0 < n,
                    c == cs@[i0],
                    lex_spec(src@) == lex_from(cs@, i0, stack@, token_models(toks@)),
                    i0 < i <= n,
                    !closed ==> string_lit(cs@, i0 + 1, Seq::empty()) == string_lit(cs@, i as int, s@),
                    closed ==> string_lit(cs@, i0 + 1, Seq::empty()) == Some((s@, i as int)),
                decreases n - i,
            {
                if cs[i] == '"' {
                    closed = true;
                    i = i + 1;
                } else if cs[i] == '\\' && i + 1 < n {
                    let e = cs[i + 1];
                    push_char(&mut s, if e == 'n' { '\n' } else if e == 't' { '\t' } else { e });
                    i = i + 2;
                } else {
                    push_char(&mut s, cs[i]);
                    i = i + 1;
                }
            }
            if !closed {
                return Err(ParseError::UnterminatedLiteral);
            }
            toks.push(Token::Lit(s));
        } else if c == '\'' {
            if n - i > 2 && cs[i + 2] == '\'' {
                let mut s = String::new();
                push_char(&mut s, cs[i + 1]);
                toks.push(Token::Lit(s));
                i = i + 3;
            } else if n - i > 3 && cs[i + 1] == '\\' && cs[i + 3] == '\'' {
                let mut s = String::new();
                push_char(&mut s, cs[i + 2]);
                toks.push(Token::Lit(s));
                i = i + 4;
            } else {
                i = i + 1;
                let mut s = String::new();
                assert(s@ =~= cs@.subrange(i0 + 1, i as int));
                while i < n && (('a' <= cs[i] && cs[i] <= 'z') || ('A' <= cs[i] && cs[i] <= 'Z') || cs[i] == '_'
                    || ('0' <= cs[i] && cs[i] <= '9'))
                    invariant
                        n == cs.len(),
                        cs@ == src@,
                        0 <= i0 < n,
                        c == cs@[i0],
                        lex_spec(src@) == lex_from(cs@, i0, stack@, token_models(toks@)),
                    cs@ == src@,
                    0 <= i0 < n,
                    c == cs@[i0],
                    lex_spec(src@) == lex_from(cs@, i0, stack@, token_models(toks@)),
                        i0 < i <= n,
                        s@ == cs@.subrange(i0 + 1, i as int),
                        ident_end(cs@, i0 + 1) == ident_end(cs@, i as int),
                    decreases n - i,
                {
                    let ghost s0 = s@;
                    push_char(&mut s, cs[i]);
                    assert(s@ == s0.push(cs@[i as int]));
                    i = i + 1;
                    assert(s@ =~= cs@.subrange(i0 + 1, i as int));
                }
                toks.push(Token::Lifetime(s));
            }
        } else if c == '(' || c == '[' || c == '{' {
            let close = if c == '(' { ')' } else if c == '[' { ']' } else { '}' };
            stack.push(close);
            toks.push(Token::Open(c));
            i = i + 1;
        } else if c == ')' || c == ']' || c == '}' {
            if stack.len() == 0 || stack[stack.len() - 1] != c {
                return Err(ParseError::Unbalanced);
            }
            stack.pop();
            toks.push(Token::Close(c));
            i = i + 1;
        } else if c == '#' || c == '!' || c == ':' || c == ',' || c == ';' || c == '<' || c == '>' || c == '&'
            || c == '*' || c == '-' || c == '=' || c == '.' || c == '+' || c == '/' || c == '%' || c == '^'
            || c == '|' || c == '?' || c == '@' || c == '$' || c == '~' {
            toks.push(Token::Punct(c));
            i = i + 1;
        } else {
            return Err(ParseError::UnknownCharacter);
        }
        proof {
            assert(token_models(toks@) =~= if toks@.len() == t0.len() {
                token_models(t0)
            } else {
                token_models(t0).push(toks@.last().model())
            });
        }
    }
    if stack.len() > 0 {
        return Err(ParseError::Unbalanced);
    }
    Ok(toks)
}

proof fn lemma_digits_end_ge(s: Seq<char>, i: int)
    ensures
        digits_end(s, i) >= i,
    decreases s.len() - i,
{
    if 0 <= i < s.len() && is_digit(s[i]) {
        lemma_digits_end_ge(s, i + 1);
    }
}

} // verus!
