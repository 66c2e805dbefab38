//! Source-located diagnostics.
//!
//! Every failure the expander can report is one of a fixed set of kinds,
//! tied to the token span it arose at.  A fatal diagnostic aborts exactly the
//! invocation it belongs to; the only warning, an empty parameter list,
//! leaves generation running.

use vstd::prelude::*;

use crate::token::{Span, SpanV};

verus! {

/// The severity of a diagnostic.
#[derive(Clone, Copy, PartialEq, Eq, Structural, Debug)]
pub enum Level {
    Error,
    Warning,
}

/// What a diagnostic reports.
#[derive(Clone, Copy, PartialEq, Eq, Structural, Debug)]
pub enum DiagKind {
    /// The invocation does not start with the keyword `for`.
    ExpectedFor,
    /// No `[`-delimited parameter list follows `for`.
    ExpectedParamList,
    /// The keyword `test` does not follow the parameter list.
    ExpectedTest,
    /// An expression was required and is missing.
    ExpectedExpression,
    /// A parameter entry is followed by something other than `,` or `]`.
    ExpectedCommaOrBracket,
    /// Tokens remain after the target.
    ExpectedEndOfMacro,
    /// An inline target does not start with `fn`.
    ExpectedFn,
    /// No identifier follows `fn` in an inline target.
    ExpectedFnName,
    /// No `(`-delimited parameter list follows an inline target's name.
    ExpectedFnParams,
    /// No `{`-delimited body ends an inline target.
    ExpectedFnBody,
    /// A path segment is missing after `::` or in place of a target.
    ExpectedPathSegment,
    /// An opening delimiter is closed by a delimiter of another kind.
    MismatchedDelim,
    /// An opening delimiter is never closed.
    UnclosedDelim,
    /// A `<` of a generic parameter list is never closed.
    UnclosedGenerics,
    /// Unpacking was required but the entry's argument is not a tuple
    /// literal.
    ExpectedTupleLiteral,
    /// A tuple argument's element count differs from the target's arity.
    TupleArityMismatch,
    /// The parameter list holds no entry (a warning: zero tests are
    /// generated, the target is still emitted).
    EmptyParamList,
}

/// The severity each kind of diagnostic carries.
pub open spec fn level_of(kind: DiagKind) -> Level {
    if kind is EmptyParamList {
        Level::Warning
    } else {
        Level::Error
    }
}

/// A diagnostic: a kind at a token span, with its severity.
#[derive(Clone, Copy, PartialEq, Eq, Structural, Debug)]
pub struct Diagnostic {
    pub level: Level,
    pub kind: DiagKind,
    pub span: Span,
}

/// The mathematical value of a [`Diagnostic`].
#[derive(PartialEq, Eq, Structural)]
pub struct DiagV {
    pub level: Level,
    pub kind: DiagKind,
    pub span: SpanV,
}

impl View for Diagnostic {
    type V = DiagV;

    open spec fn view(&self) -> DiagV {
        DiagV { level: self.level, kind: self.kind, span: self.span@ }
    }
}

/// A diagnostic of the given kind at the given span, spec-side.
pub open spec fn diag_at(kind: DiagKind, span: SpanV) -> DiagV {
    DiagV { level: level_of(kind), kind: kind, span: span }
}

impl Diagnostic {
    /// A diagnostic of the given kind at the given span, with the severity
    /// that kind carries.
    pub fn new(kind: DiagKind, span: Span) -> (r: Diagnostic)
        ensures
            r@ == diag_at(kind, span@),
    {
        let level = match kind {
            DiagKind::EmptyParamList => Level::Warning,
            _ => Level::Error,
        };
        Diagnostic { level, kind, span }
    }

    /// The fixed message text of this diagnostic's kind.
    pub fn message(&self) -> (r: &'static str)
        ensures
            r@ == spec_message(self.kind),
    {
        match self.kind {
            DiagKind::ExpectedFor => "expected `for`",
            DiagKind::ExpectedParamList => "expected `[`",
            DiagKind::ExpectedTest => "expected `test`",
            DiagKind::ExpectedExpression => "expected expression",
            DiagKind::ExpectedCommaOrBracket => "expected `,` or `]`",
            DiagKind::ExpectedEndOfMacro => "expected end of macro",
            DiagKind::ExpectedFn => "expected `fn`",
            DiagKind::ExpectedFnName => "expected function name",
            DiagKind::ExpectedFnParams => "expected function parameters",
            DiagKind::ExpectedFnBody => "expected function body",
            DiagKind::ExpectedPathSegment => "expected path segment",
            DiagKind::MismatchedDelim => "mismatched closing delimiter",
            DiagKind::UnclosedDelim => "unclosed delimiter",
            DiagKind::UnclosedGenerics => "unclosed generic parameter list",
            DiagKind::ExpectedTupleLiteral => "expected tuple literal",
            DiagKind::TupleArityMismatch => "tuple does not match the target's parameter count",
            DiagKind::EmptyParamList => "empty parametrized tests are useless",
        }
    }
}

/// The fixed message text of each kind of diagnostic.
pub open spec fn spec_message(kind: DiagKind) -> Seq<char> {
    match kind {
        DiagKind::ExpectedFor => "expected `for`"@,
        DiagKind::ExpectedParamList => "expected `[`"@,
        DiagKind::ExpectedTest => "expected `test`"@,
        DiagKind::ExpectedExpression => "expected expression"@,
        DiagKind::ExpectedCommaOrBracket => "expected `,` or `]`"@,
        DiagKind::ExpectedEndOfMacro => "expected end of macro"@,
        DiagKind::ExpectedFn => "expected `fn`"@,
        DiagKind::ExpectedFnName => "expected function name"@,
        DiagKind::ExpectedFnParams => "expected function parameters"@,
        DiagKind::ExpectedFnBody => "expected function body"@,
        DiagKind::ExpectedPathSegment => "expected path segment"@,
        DiagKind::MismatchedDelim => "mismatched closing delimiter"@,
        DiagKind::UnclosedDelim => "unclosed delimiter"@,
        DiagKind::UnclosedGenerics => "unclosed generic parameter list"@,
        DiagKind::ExpectedTupleLiteral => "expected tuple literal"@,
        DiagKind::TupleArityMismatch => "tuple does not match the target's parameter count"@,
        DiagKind::EmptyParamList => "empty parametrized tests are useless"@,
    }
}

} // verus!
