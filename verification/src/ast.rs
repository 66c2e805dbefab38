//! The structured form of a parsed invocation.
//!
//! Parsing `for [ entries ] test [!] target` yields an [`ExpansionRequest`]:
//! the parameter entries, the target function, and the panic flag.  Every
//! expression is identified by the [`Span`] of tokens it occupies in the
//! invocation's stream; identifier text is copied out.

use vstd::prelude::*;

use crate::token::{Span, SpanV};

verus! {

/// The views of a vector of strings.
pub open spec fn strings_view(v: Seq<String>) -> Seq<Seq<char>> {
    v.map_values(|s: String| s@)
}

/// One parameter entry: an optional label, the argument expression, and the
/// optional expected-result expression.
#[derive(Debug)]
pub struct Param {
    /// The label `'name`, used instead of the entry's position to name the
    /// generated test.
    pub label: Option<String>,
    /// The tokens of the argument expression.
    pub arg: Span,
    /// The tokens of the expression after `->`, if any: the value the
    /// target's result must equal.
    pub expected: Option<Span>,
}

/// The mathematical value of a [`Param`].
pub struct ParamV {
    pub label: Option<Seq<char>>,
    pub arg: SpanV,
    pub expected: Option<SpanV>,
}

impl View for Param {
    type V = ParamV;

    open spec fn view(&self) -> ParamV {
        ParamV {
            label: match self.label {
                Some(s) => Some(s@),
                None => None,
            },
            arg: self.arg@,
            expected: match self.expected {
                Some(sp) => Some(sp@),
                None => None,
            },
        }
    }
}

/// The target of an invocation: a function declared inline, whose tokens
/// are re-emitted verbatim, or a reference to one defined elsewhere.
#[derive(Debug)]
pub enum FnKind {
    /// `test fn name(...) { ... }`: the declaration's name, its arity (the
    /// number of formal parameters), and the span of the whole declaration.
    Decl { name: String, arity: usize, span: Span },
    /// `test path::to::name`: the segments of the path and its span.  The
    /// referenced function's arity is not known to the expander.
    Path { segs: Vec<String>, span: Span },
}

/// The mathematical value of a [`FnKind`].
pub enum FnKindV {
    Decl { name: Seq<char>, arity: nat, span: SpanV },
    Path { segs: Seq<Seq<char>>, span: SpanV },
}

impl View for FnKind {
    type V = FnKindV;

    open spec fn view(&self) -> FnKindV {
        match self {
            FnKind::Decl { name, arity, span } => FnKindV::Decl {
                name: name@,
                arity: *arity as nat,
                span: span@,
            },
            FnKind::Path { segs, span } => FnKindV::Path { segs: strings_view(segs@), span: span@ },
        }
    }
}

/// The base name generated test names start from: the declared function's
/// name, or the last segment of the referenced path.
pub open spec fn spec_base_name(target: FnKindV) -> Seq<char> {
    match target {
        FnKindV::Decl { name, .. } => name,
        FnKindV::Path { segs, .. } => segs.last(),
    }
}

/// Clones a vector of strings, keeping the texts.
pub fn clone_strings(v: &Vec<String>) -> (r: Vec<String>)
    ensures
        strings_view(r@) == strings_view(v@),
{
    let mut r: Vec<String> = Vec::new();
    let mut k: usize = 0;
    while k < v.len()
        invariant
            k <= v@.len(),
            strings_view(r@) =~= strings_view(v@).take(k as int),
        decreases v@.len() - k,
    {
        let ghost prev = r@;
        r.push(v[k].clone());
        proof {
            assert(strings_view(r@) =~= strings_view(prev) + seq![v@[k as int]@]);
            assert(strings_view(r@) =~= strings_view(v@).take(k + 1));
        }
        k = k + 1;
    }
    proof {
        assert(strings_view(v@).take(v@.len() as int) =~= strings_view(v@));
    }
    r
}

/// Whether a target is well formed: a path reference has at least one
/// segment.  Every target the parser yields is.
pub open spec fn target_wf(t: FnKindV) -> bool {
    t matches FnKindV::Path { segs, .. } ==> segs.len() > 0
}

/// Whether a span lies within a stream of `n` tokens.
pub open spec fn span_in(sp: SpanV, n: int) -> bool {
    0 <= sp.lo <= sp.hi <= n
}

/// Whether every entry's argument span lies within a stream of `n` tokens.
/// Every request the parser yields on a stream of `n` tokens satisfies it.
pub open spec fn params_in_range(params: Seq<ParamV>, n: int) -> bool {
    forall|k: int| 0 <= k < params.len() ==> span_in(#[trigger] params[k].arg, n)
}

/// A fully parsed invocation, ready for synthesis.
#[derive(Debug)]
pub struct ExpansionRequest {
    /// The parameter entries, in source order.
    pub params: Vec<Param>,
    /// The span of the bracketed parameter list, brackets included.
    pub params_span: Span,
    /// The target function.
    pub target: FnKind,
    /// Whether `!` followed `test`: every generated test then passes only
    /// if the call terminates by panicking.
    pub should_panic: bool,
}

/// The mathematical value of an [`ExpansionRequest`].
pub struct RequestV {
    pub params: Seq<ParamV>,
    pub params_span: SpanV,
    pub target: FnKindV,
    pub should_panic: bool,
}

/// The views of a vector of parameter entries.
pub open spec fn params_view(v: Seq<Param>) -> Seq<ParamV> {
    v.map_values(|p: Param| p@)
}

impl View for ExpansionRequest {
    type V = RequestV;

    open spec fn view(&self) -> RequestV {
        RequestV {
            params: params_view(self.params@),
            params_span: self.params_span@,
            target: self.target@,
            should_panic: self.should_panic,
        }
    }
}

} // verus!
