//! The token alphabet of the invocation grammar.
//!
//! An invocation reaches the expander as a flat stream of tokens in which
//! bracket-like delimiters appear as explicit `Open`/`Close` tokens.  A
//! position in the stream is a plain index, and every construct the parser
//! recognizes is described by the half-open index range [`Span`] it occupies.

use vstd::prelude::*;

verus! {

/// A bracket-like delimiter kind.
#[derive(Clone, Copy, PartialEq, Eq, Structural, Debug)]
pub enum Delim {
    /// `(` / `)`
    Paren,
    /// `[` / `]`
    Bracket,
    /// `{` / `}`
    Brace,
}

/// One token of an invocation.
///
/// Identifiers carry their text; keywords such as `for` and `test` are
/// ordinary identifiers recognized by their text.  Every punctuation mark
/// that the grammar does not treat specially is a `Punct`.
#[derive(Debug, PartialEq, Eq)]
pub enum Token {
    /// An identifier or keyword, with its text.
    Ident(String),
    /// An entry label `'name`, with the text after the quote.
    Label(String),
    /// A literal (number, string, ...), with its text.
    Literal(String),
    /// An opening delimiter.
    Open(Delim),
    /// A closing delimiter.
    Close(Delim),
    /// `,`
    Comma,
    /// `->`
    RArrow,
    /// `!`
    Bang,
    /// `::`
    PathSep,
    /// Any other single punctuation character, e.g. `&`, `<`, `:`.
    Punct(char),
}

/// A half-open range `[lo, hi)` of token indices in the invocation stream.
#[derive(Clone, Copy, PartialEq, Eq, Structural, Debug)]
pub struct Span {
    pub lo: usize,
    pub hi: usize,
}

/// The mathematical value of a [`Span`].
#[derive(PartialEq, Eq, Structural)]
pub struct SpanV {
    pub lo: int,
    pub hi: int,
}

impl View for Span {
    type V = SpanV;

    open spec fn view(&self) -> SpanV {
        SpanV { lo: self.lo as int, hi: self.hi as int }
    }
}

impl Span {
    /// The span of the single token at index `i`.
    pub fn at(i: usize) -> (r: Span)
        requires
            i < usize::MAX,
        ensures
            r@ == span_at(i as int),
    {
        Span { lo: i, hi: i + 1 }
    }
}

/// The span of the single token at index `i`, spec-side.
pub open spec fn span_at(i: int) -> SpanV {
    SpanV { lo: i, hi: i + 1 }
}

/// How a token changes the delimiter nesting depth.
pub open spec fn delim_delta(t: Token) -> int {
    if t is Open {
        1
    } else if t is Close {
        -1
    } else {
        0
    }
}

/// How a token changes a delimiter nesting depth that is clamped at zero,
/// so that a scan stays meaningful on arbitrary input: an opening delimiter
/// deepens the nesting, a closing one leaves it, and a stray closing
/// delimiter at depth zero is ignored.
pub open spec fn delim_step(t: Token, dd: int) -> int {
    if t is Open {
        dd + 1
    } else if t is Close && dd > 0 {
        dd - 1
    } else {
        dd
    }
}

/// How a token changes the angle-bracket nesting depth used when the
/// contents of a formal parameter list are split into formals: `<` opens a
/// generic-argument list and `>` closes one.  The depth is clamped at zero so
/// that the scan is total on arbitrary input.
pub open spec fn angle_delta(t: Token, ad: int) -> int {
    if t == Token::Punct('<') {
        ad + 1
    } else if t == Token::Punct('>') && ad > 0 {
        ad - 1
    } else {
        ad
    }
}

/// Whether a token is the identifier with the given text.
pub open spec fn is_ident_named(t: Token, name: Seq<char>) -> bool {
    t matches Token::Ident(s) && s@ == name
}

impl Token {
    /// Whether this token is the identifier with text `name`.
    pub fn is_kw(&self, name: &str) -> (r: bool)
        ensures
            r == is_ident_named(*self, name@),
    {
        match self {
            Token::Ident(s) => String::eq(s, &name.to_owned()),
            _ => false,
        }
    }
}

} // verus!
