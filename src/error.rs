//! Diagnostics: grammar violations in the input, and internal consistency
//! errors of the generator itself.
use vstd::prelude::*;

verus! {

/// A grammar violation or an unreadable input.
#[derive(Clone, Copy, Debug, PartialEq, Eq, Structural)]
pub enum ParseError {
    Generics,
    WhereClause,
    Lifetime,
    Async,
    Abi,
    ReceiverOutsideImpl,
    SelfTypeOutsideImpl,
    OwnedSelfNotUnsafe,
    SecondSelf,
    TraitImpl,
    GlobalPath,
    TypePath,
    TypeArguments,
    ImplType,
    DuplicateConstructor,
    ConstructorReturn,
    UnknownMarker,
    InnerAttribute,
    ArrayLength,
    UnterminatedLiteral,
    UnknownCharacter,
    Unbalanced,
    Unexpected,
    UnexpectedEnd,
    NotAnItem,
}

/// The text of each diagnostic.
pub open spec fn error_message(e: ParseError) -> Seq<char> {
    match e {
        ParseError::Generics => "generic parameters are not supported"@,
        ParseError::WhereClause => "generic parameters and where clauses are not supported"@,
        ParseError::Lifetime => "generic parameters and lifetimes are not supported"@,
        ParseError::Async => "unsupported async function qualifier"@,
        ParseError::Abi => "unsupported ABI type. replace with `extern \"C\"`, `extern`, or remove the `extern` keyword"@,
        ParseError::ReceiverOutsideImpl => "unexpected receiver: `self` parameter may only appear in associated functions of implement blocks"@,
        ParseError::SelfTypeOutsideImpl => "unknown `Self` type. `Self` may only appear in associated functions of implement blocks"@,
        ParseError::OwnedSelfNotUnsafe => "a `self` receiver takes ownership across the boundary: mark the function `unsafe`"@,
        ParseError::SecondSelf => "only one receiver is allowed"@,
        ParseError::TraitImpl => "unexpected token: trait implements are not supported"@,
        ParseError::GlobalPath => "unsupported global path"@,
        ParseError::TypePath => "unsupported type path: only bare identifiers are supported. bring the type into scope with a `use` statement"@,
        ParseError::TypeArguments => "type arguments are not supported"@,
        ParseError::ImplType => "unsupported type: only bare identifiers are supported"@,
        ParseError::DuplicateConstructor => "`constructor` marker used multiple times. only one function can be marked with `constructor`"@,
        ParseError::ConstructorReturn => "a `constructor` must return `Self` or the implementing type"@,
        ParseError::UnknownMarker => "unknown value. expected one of `deno_bindgen`, `deno_bindgen_non_blocking`, `deno_bindgen_constructor`"@,
        ParseError::InnerAttribute => "attempted to parse inner attribute in a parser for outer attributes"@,
        ParseError::ArrayLength => "unsupported expression: constant expressions cannot be evaluated. please provide an integer literal"@,
        ParseError::UnterminatedLiteral => "unterminated literal"@,
        ParseError::UnknownCharacter => "unknown character"@,
        ParseError::Unbalanced => "unbalanced delimiter"@,
        ParseError::Unexpected => "unexpected token"@,
        ParseError::UnexpectedEnd => "unexpected end of input"@,
        ParseError::NotAnItem => "failed to parse item: expected `fn`, `impl`, `struct` or `mod`"@,
    }
}

impl ParseError {
    /// A human-readable description with a remediation hint.
    pub fn message(&self) -> (r: &'static str)
        ensures
            r@ == error_message(*self),
    {
        match self {
            ParseError::Generics => "generic parameters are not supported",
            ParseError::WhereClause => "generic parameters and where clauses are not supported",
            ParseError::Lifetime => "generic parameters and lifetimes are not supported",
            ParseError::Async => "unsupported async function qualifier",
            ParseError::Abi =>
                "unsupported ABI type. replace with `extern \"C\"`, `extern`, or remove the `extern` keyword",
            ParseError::ReceiverOutsideImpl =>
                "unexpected receiver: `self` parameter may only appear in associated functions of implement blocks",
            ParseError::SelfTypeOutsideImpl =>
                "unknown `Self` type. `Self` may only appear in associated functions of implement blocks",
            ParseError::OwnedSelfNotUnsafe =>
                "a `self` receiver takes ownership across the boundary: mark the function `unsafe`",
            ParseError::SecondSelf => "only one receiver is allowed",
            ParseError::TraitImpl => "unexpected token: trait implements are not supported",
            ParseError::GlobalPath => "unsupported global path",
            ParseError::TypePath =>
                "unsupported type path: only bare identifiers are supported. bring the type into scope with a `use` statement",
            ParseError::TypeArguments => "type arguments are not supported",
            ParseError::ImplType => "unsupported type: only bare identifiers are supported",
            ParseError::DuplicateConstructor =>
                "`constructor` marker used multiple times. only one function can be marked with `constructor`",
            ParseError::ConstructorReturn => "a `constructor` must return `Self` or the implementing type",
            ParseError::UnknownMarker =>
                "unknown value. expected one of `deno_bindgen`, `deno_bindgen_non_blocking`, `deno_bindgen_constructor`",
            ParseError::InnerAttribute => "attempted to parse inner attribute in a parser for outer attributes",
            ParseError::ArrayLength =>
                "unsupported expression: constant expressions cannot be evaluated. please provide an integer literal",
            ParseError::UnterminatedLiteral => "unterminated literal",
            ParseError::UnknownCharacter => "unknown character",
            ParseError::Unbalanced => "unbalanced delimiter",
            ParseError::Unexpected => "unexpected token",
            ParseError::UnexpectedEnd => "unexpected end of input",
            ParseError::NotAnItem => "failed to parse item: expected `fn`, `impl`, `struct` or `mod`",
        }
    }
}

/// A parse error and the index of the token where it was found.
#[derive(Clone, Copy, Debug, PartialEq, Eq, Structural)]
pub struct Diagnostic {
    pub error: ParseError,
    pub at: usize,
}

/// An inconsistency inside the generator: a defect, not a user error.
#[derive(Clone, Copy, Debug, PartialEq, Eq, Structural)]
pub enum InternalError {
    /// An out statement was computed for a function that returns `()`.
    OutStmtOnVoid,
    /// The shim was printed before its arguments were named.
    ArgsNotNamed,
    /// A method has an association but no enclosing type.
    MissingSelfType,
    /// The script formatter refused the generated text.
    Format,
    /// A helper template lacks one of its section markers or its symbol
    /// table does not parse.
    Template,
}

/// Why the export attribute could not expand an item.
#[derive(Clone, Copy, Debug, PartialEq, Eq, Structural)]
pub enum ExpandError {
    Parse(Diagnostic),
    Internal(InternalError),
}

} // verus!
