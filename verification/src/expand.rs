//! The test synthesizer.
//!
//! A parsed invocation is expanded into items: for an inline target, the
//! target function itself (re-emitted verbatim, marked to suppress unused
//! warnings), and one test item per parameter entry.  Each test is uniquely
//! named, marked as a test (and, under `test!`, as expecting a panic), and
//! calls the target with the entry's argument — unpacked into positional
//! arguments when the target takes more than one, or may (a path reference's
//! arity being unknown here, unpacking is assumed).  A failing entry ends
//! its own invocation with one diagnostic and touches no other invocation.

use vstd::prelude::*;

use crate::ast::{clone_strings, params_in_range, span_in, spec_base_name, strings_view, target_wf,
    ExpansionRequest, FnKind, FnKindV, Param, ParamV, RequestV};
use crate::diag::{diag_at, DiagKind, Diagnostic, DiagV};
use crate::names::{label_view, spec_test_name, test_name, NameCx};
use crate::parse::{lemma_parse_plague_props, parse_plague, spec_parse_plague};
use crate::scan::{find_close, has_top_comma, spans_view, spec_find_close, spec_has_top_comma,
    spec_split, split_pieces};
use crate::token::{Span, SpanV, Token};

verus! {

/// The markers a generated item carries for the host test harness.
#[derive(Clone, Copy, PartialEq, Eq, Structural, Debug)]
pub struct TestMarkers {
    /// The standard "this is a test" marker; on every generated test.
    pub is_test: bool,
    /// The "expected to panic" marker: the call must terminate abnormally
    /// for the test to count as passing.
    pub should_panic: bool,
}

/// One generated test: a uniquely named zero-argument test entity whose
/// body calls the target with the entry's arguments and, when the entry
/// carries an expected value, fails reporting both values unless the result
/// equals it.
#[derive(Debug)]
pub struct TestItem {
    /// The test's name: the target's base name plus the entry's suffix.
    pub name: String,
    /// The harness markers.
    pub markers: TestMarkers,
    /// The path of the function the body calls.
    pub callee: Vec<String>,
    /// The spans of the positional argument expressions.
    pub args: Vec<Span>,
    /// The span of the expected-result expression, if the entry had one:
    /// the body then asserts the call's result equals it, failing with a
    /// message that names both values.
    pub expected: Option<Span>,
}

/// The mathematical value of a [`TestItem`].
pub struct TestItemV {
    pub name: Seq<char>,
    pub markers: TestMarkers,
    pub callee: Seq<Seq<char>>,
    pub args: Seq<SpanV>,
    pub expected: Option<SpanV>,
}

impl View for TestItem {
    type V = TestItemV;

    open spec fn view(&self) -> TestItemV {
        TestItemV {
            name: self.name@,
            markers: self.markers,
            callee: strings_view(self.callee@),
            args: spans_view(self.args@),
            expected: match self.expected {
                Some(sp) => Some(sp@),
                None => None,
            },
        }
    }
}

/// One item handed to the surrounding compilation unit.
#[derive(Debug)]
pub enum Item {
    /// An inline target, re-emitted verbatim from its span, marked to
    /// suppress unused warnings (it may only ever be called through the
    /// generated tests).
    Target { name: String, span: Span },
    /// A generated test.
    Test(TestItem),
}

/// The mathematical value of an [`Item`].
pub enum ItemV {
    Target { name: Seq<char>, span: SpanV },
    Test(TestItemV),
}

impl View for Item {
    type V = ItemV;

    open spec fn view(&self) -> ItemV {
        match self {
            Item::Target { name, span } => ItemV::Target { name: name@, span: span@ },
            Item::Test(t) => ItemV::Test(t@),
        }
    }
}

/// The views of a vector of items.
pub open spec fn items_view(v: Seq<Item>) -> Seq<ItemV> {
    v.map_values(|it: Item| it@)
}

/// The views of a vector of diagnostics.
pub open spec fn diags_view(v: Seq<Diagnostic>) -> Seq<DiagV> {
    v.map_values(|d: Diagnostic| d@)
}

/// What one invocation expands to: the emitted items and the non-fatal
/// diagnostics gathered along the way.
#[derive(Debug)]
pub struct Expansion {
    pub items: Vec<Item>,
    pub diags: Vec<Diagnostic>,
}

/// The mathematical value of an [`Expansion`].
pub struct ExpansionV {
    pub items: Seq<ItemV>,
    pub diags: Seq<DiagV>,
}

impl View for Expansion {
    type V = ExpansionV;

    open spec fn view(&self) -> ExpansionV {
        ExpansionV { items: items_view(self.items@), diags: diags_view(self.diags@) }
    }
}

/// Whether entries against this target must be tuple literals to unpack:
/// they must when the declared arity exceeds one, and for a path reference,
/// whose arity is unknown, unpacking is assumed.
pub open spec fn spec_needs_unpack(target: FnKindV) -> bool {
    match target {
        FnKindV::Decl { arity, .. } => arity > 1,
        FnKindV::Path { .. } => true,
    }
}

/// Whether the tokens at `sp` form a tuple literal: a single parenthesized
/// group that is either empty or holds a comma at its top level.
pub open spec fn spec_is_tuple(s: Seq<Token>, sp: SpanV) -> bool {
    &&& sp.hi - sp.lo >= 2
    &&& 0 <= sp.lo && sp.hi <= s.len()
    &&& (s[sp.lo] matches Token::Open(d) && d is Paren)
    &&& spec_find_close(s, sp.lo + 1, 1) == Some(sp.hi - 1)
    &&& (sp.hi == sp.lo + 2 || spec_has_top_comma(s, sp.lo + 1, sp.hi - 1, 0))
}

/// The positional arguments the entry `p` contributes: its argument
/// expression as the sole argument when no unpacking is needed; otherwise
/// the elements of its tuple literal, which for a declared target must be
/// exactly as many as the arity.  An entry that must unpack but is no tuple,
/// or whose element count is wrong, fails with a diagnostic at its argument.
pub open spec fn spec_analyze(s: Seq<Token>, target: FnKindV, p: ParamV) -> Result<
    Seq<SpanV>,
    DiagV,
> {
    if !spec_needs_unpack(target) {
        Ok(seq![p.arg])
    } else if !spec_is_tuple(s, p.arg) {
        Err(diag_at(DiagKind::ExpectedTupleLiteral, p.arg))
    } else {
        let elems = spec_split(s, p.arg.lo + 1, p.arg.hi - 1, false);
        match target {
            FnKindV::Decl { arity, .. } => {
                if elems.len() == arity {
                    Ok(elems)
                } else {
                    Err(diag_at(DiagKind::TupleArityMismatch, p.arg))
                }
            },
            FnKindV::Path { .. } => Ok(elems),
        }
    }
}

/// Analyzes one entry's argument against the target, per [`spec_analyze`].
pub fn make_params(s: &Vec<Token>, target: &FnKind, p: &Param) -> (r: Result<
    Vec<Span>,
    Diagnostic,
>)
    requires
        s@.len() < usize::MAX,
        span_in(p.arg@, s@.len() as int),
    ensures
        match r {
            Ok(args) => spec_analyze(s@, target@, p@) == Ok::<_, DiagV>(spans_view(args@)),
            Err(d) => spec_analyze(s@, target@, p@) == Err::<Seq<SpanV>, _>(d@),
        },
{
    let needs_unpack = match target {
        FnKind::Decl { arity, .. } => *arity > 1,
        FnKind::Path { .. } => true,
    };
    if !needs_unpack {
        let mut args: Vec<Span> = Vec::new();
        args.push(p.arg);
        proof {
            assert(spans_view(args@) =~= seq![p.arg@]);
        }
        return Ok(args);
    }
    let lo = p.arg.lo;
    let hi = p.arg.hi;
    let open_paren = hi - lo >= 2 && (match &s[lo] {
        Token::Open(d) => matches!(d, crate::token::Delim::Paren),
        _ => false,
    });
    let is_tuple = open_paren && (match find_close(s, lo + 1) {
        Some(c) => c == hi - 1,
        None => false,
    }) && (hi == lo + 2 || has_top_comma(s, lo + 1, hi - 1));
    if !is_tuple {
        return Err(Diagnostic::new(DiagKind::ExpectedTupleLiteral, p.arg));
    }
    let elems = split_pieces(s, lo + 1, hi - 1, false);
    match target {
        FnKind::Decl { arity, .. } => {
            if elems.len() == *arity {
                Ok(elems)
            } else {
                Err(Diagnostic::new(DiagKind::TupleArityMismatch, p.arg))
            }
        },
        FnKind::Path { .. } => Ok(elems),
    }
}

/// The path the generated tests call: the declared function's name, or the
/// referenced path itself.
pub open spec fn spec_callee(target: FnKindV) -> Seq<Seq<char>> {
    match target {
        FnKindV::Decl { name, .. } => seq![name],
        FnKindV::Path { segs, .. } => segs,
    }
}

/// The test generated for entry `p` at position `idx`, its arguments
/// already analyzed.
pub open spec fn spec_test_item(
    target: FnKindV,
    p: ParamV,
    idx: nat,
    should_panic: bool,
    args: Seq<SpanV>,
) -> TestItemV {
    TestItemV {
        name: spec_test_name(spec_base_name(target), p.label, idx),
        markers: TestMarkers { is_test: true, should_panic },
        callee: spec_callee(target),
        args: args,
        expected: p.expected,
    }
}

/// Synthesizes the test for entry `p` at position `idx`: a zero-argument
/// test entity that calls the target with `args` and, when the entry
/// expects a result, fails reporting actual and expected values unless they
/// are equal.
pub fn make_test_fn(
    target: &FnKind,
    p: &Param,
    idx: usize,
    should_panic: bool,
    args: Vec<Span>,
) -> (r: TestItem)
    requires
        target_wf(target@),
    ensures
        r@ == spec_test_item(target@, p@, idx as nat, should_panic, spans_view(args@)),
{
    let (name, callee) = match target {
        FnKind::Decl { name, .. } => {
            let mut callee: Vec<String> = Vec::new();
            callee.push(name.clone());
            proof {
                assert(strings_view(callee@) =~= seq![name@]);
            }
            (test_name(name.as_str(), &p.label, idx), callee)
        },
        FnKind::Path { segs, .. } => {
            let base = &segs[segs.len() - 1];
            proof {
                assert(strings_view(segs@).last() == segs@.last()@);
            }
            (test_name(base.as_str(), &p.label, idx), clone_strings(segs))
        },
    };
    TestItem {
        name,
        markers: TestMarkers { is_test: true, should_panic },
        callee,
        args,
        expected: p.expected,
    }
}

/// The first diagnostic among the entries' analyses from `k` on, if any.
pub open spec fn spec_first_err(
    s: Seq<Token>,
    target: FnKindV,
    params: Seq<ParamV>,
    k: int,
) -> Option<DiagV>
    decreases params.len() - k,
{
    if k < 0 || k >= params.len() {
        None
    } else {
        match spec_analyze(s, target, params[k]) {
            Err(d) => Some(d),
            Ok(_) => spec_first_err(s, target, params, k + 1),
        }
    }
}

/// The arguments of entry `k`, given its analysis succeeds.
pub open spec fn spec_args_of(s: Seq<Token>, target: FnKindV, p: ParamV) -> Seq<SpanV> {
    match spec_analyze(s, target, p) {
        Ok(a) => a,
        Err(_) => Seq::empty(),
    }
}

/// The item an inline target itself contributes: none for a path reference.
pub open spec fn spec_target_items(target: FnKindV) -> Seq<ItemV> {
    match target {
        FnKindV::Decl { name, span, .. } => seq![ItemV::Target { name, span }],
        FnKindV::Path { .. } => Seq::empty(),
    }
}

/// What a request expands to: on the first entry whose analysis fails, that
/// entry's diagnostic and nothing else; otherwise the target's own item (for
/// an inline target) followed by one test per entry, plus — for an empty
/// parameter list — a warning, with generation still succeeding.
pub open spec fn spec_make_plague(s: Seq<Token>, req: RequestV) -> Result<ExpansionV, DiagV> {
    match spec_first_err(s, req.target, req.params, 0) {
        Some(d) => Err(d),
        None => Ok(
            ExpansionV {
                items: spec_target_items(req.target) + Seq::new(
                    req.params.len(),
                    |k: int|
                        ItemV::Test(
                            spec_test_item(
                                req.target,
                                req.params[k],
                                k as nat,
                                req.should_panic,
                                spec_args_of(s, req.target, req.params[k]),
                            ),
                        ),
                ),
                diags: if req.params.len() == 0 {
                    seq![diag_at(DiagKind::EmptyParamList, req.params_span)]
                } else {
                    Seq::empty()
                },
            },
        ),
    }
}

/// Expands a parsed request, per [`spec_make_plague`], interning each
/// generated name in `names`, which only grows.
pub fn make_plague(s: &Vec<Token>, names: &mut NameCx, req: &ExpansionRequest) -> (r: Result<
    Expansion,
    Diagnostic,
>)
    requires
        s@.len() < usize::MAX,
        target_wf(req.target@),
        params_in_range(req@.params, s@.len() as int),
    ensures
        match r {
            Ok(e) => spec_make_plague(s@, req@) == Ok::<_, DiagV>(e@),
            Err(d) => spec_make_plague(s@, req@) == Err::<ExpansionV, _>(d@),
        },
        old(names).names@.is_prefix_of(final(names).names@),
{
    let ghost reqv = req@;
    let mut items: Vec<Item> = Vec::new();
    let mut diags: Vec<Diagnostic> = Vec::new();
    if req.params.len() == 0 {
        diags.push(Diagnostic::new(DiagKind::EmptyParamList, req.params_span));
    }
    match &req.target {
        FnKind::Decl { name, span, .. } => {
            items.push(Item::Target { name: name.clone(), span: *span });
            proof {
                assert(items_view(items@) =~= spec_target_items(reqv.target));
            }
        },
        FnKind::Path { .. } => {
            proof {
                assert(items_view(items@) =~= spec_target_items(reqv.target));
            }
        },
    }
    let ghost base_items = items_view(items@);
    let n = req.params.len();
    let mut k: usize = 0;
    while k < n
        invariant
            k <= n == reqv.params.len(),
            s@.len() < usize::MAX,
            target_wf(reqv.target),
            params_in_range(reqv.params, s@.len() as int),
            reqv == req@,
            base_items == spec_target_items(reqv.target),
            spec_first_err(s@, reqv.target, reqv.params, 0) == spec_first_err(
                s@,
                reqv.target,
                reqv.params,
                k as int,
            ),
            items_view(items@) =~= base_items + Seq::new(
                k as nat,
                |m: int|
                    ItemV::Test(
                        spec_test_item(
                            reqv.target,
                            reqv.params[m],
                            m as nat,
                            reqv.should_panic,
                            spec_args_of(s@, reqv.target, reqv.params[m]),
                        ),
                    ),
            ),
            diags_view(diags@) =~= (if reqv.params.len() == 0 {
                seq![diag_at(DiagKind::EmptyParamList, reqv.params_span)]
            } else {
                Seq::<DiagV>::empty()
            }),
            old(names).names@.is_prefix_of(names.names@),
        decreases n - k,
    {
        proof {
            assert(reqv.params[k as int] == req.params@[k as int]@);
        }
        let args = match make_params(s, &req.target, &req.params[k]) {
            Ok(a) => a,
            Err(d) => {
                return Err(d);
            },
        };
        let item = make_test_fn(&req.target, &req.params[k], k, req.should_panic, args);
        let ghost pre_intern = names.names@;
        names.intern(item.name.clone());
        let ghost prev_items = items_view(items@);
        items.push(Item::Test(item));
        proof {
            crate::names::lemma_prefix_trans(old(names).names@, pre_intern, names.names@);
            assert(items_view(items@) =~= prev_items + seq![
                ItemV::Test(
                    spec_test_item(
                        reqv.target,
                        reqv.params[k as int],
                        k as nat,
                        reqv.should_panic,
                        spec_args_of(s@, reqv.target, reqv.params[k as int]),
                    ),
                ),
            ]);
            assert(items_view(items@) =~= base_items + Seq::new(
                (k + 1) as nat,
                |m: int|
                    ItemV::Test(
                        spec_test_item(
                            reqv.target,
                            reqv.params[m],
                            m as nat,
                            reqv.should_panic,
                            spec_args_of(s@, reqv.target, reqv.params[m]),
                        ),
                    ),
            ));
        }
        k = k + 1;
    }
    proof {
        assert(spec_first_err(s@, reqv.target, reqv.params, n as int) is None);
    }
    Ok(Expansion { items, diags })
}

/// What one invocation's token stream expands to: the parsed request's
/// expansion, or — when parsing or analysis fails — an empty placeholder
/// expansion carrying the one fatal diagnostic, so that the rest of the
/// compilation goes on untouched.
pub open spec fn spec_expand_invocation(s: Seq<Token>) -> ExpansionV {
    match spec_parse_plague(s) {
        Err(d) => ExpansionV { items: Seq::empty(), diags: seq![d] },
        Ok(req) => match spec_make_plague(s, req) {
            Err(d) => ExpansionV { items: Seq::empty(), diags: seq![d] },
            Ok(e) => e,
        },
    }
}

/// The empty placeholder expansion carrying one fatal diagnostic.
fn placeholder(d: Diagnostic) -> (r: Expansion)
    ensures
        r@ == (ExpansionV { items: Seq::<ItemV>::empty(), diags: seq![d@] }),
{
    let items: Vec<Item> = Vec::new();
    let mut diags: Vec<Diagnostic> = Vec::new();
    diags.push(d);
    proof {
        assert(items_view(items@) =~= Seq::<ItemV>::empty());
        assert(diags_view(diags@) =~= seq![d@]);
    }
    Expansion { items, diags }
}

/// Expands one invocation, per [`spec_expand_invocation`]: parses the token
/// stream and synthesizes the tests, minting their names through `names`,
/// which only grows.  A fatal diagnostic is returned inside the placeholder
/// expansion, never propagated further.
pub fn plague_macro(s: &Vec<Token>, names: &mut NameCx) -> (r: Expansion)
    requires
        s@.len() < usize::MAX,
    ensures
        r@ == spec_expand_invocation(s@),
        old(names).names@.is_prefix_of(final(names).names@),
{
    proof {
        assert(names.names@.is_prefix_of(names.names@)) by {
            assert(names.names@ =~= names.names@.subrange(0, names.names@.len() as int));
        }
    }
    match parse_plague(s) {
        Err(d) => placeholder(d),
        Ok(req) => {
            proof {
                lemma_parse_plague_props(s@);
            }
            match make_plague(s, names, &req) {
                Err(d) => placeholder(d),
                Ok(e) => e,
            }
        },
    }
}

/// Expands each invocation in turn through one shared naming context.
/// Each result is a function of its own invocation's tokens alone: one
/// invocation's failure cannot corrupt or block another's expansion.
pub fn expand_all(invocations: &Vec<Vec<Token>>, names: &mut NameCx) -> (r: Vec<Expansion>)
    requires
        forall|k: int| 0 <= k < invocations@.len() ==> (#[trigger] invocations@[k])@.len()
            < usize::MAX,
    ensures
        r@.len() == invocations@.len(),
        forall|k: int| 0 <= k < r@.len() ==> (#[trigger] r@[k])@ == spec_expand_invocation(
            invocations@[k]@,
        ),
        old(names).names@.is_prefix_of(final(names).names@),
{
    let mut r: Vec<Expansion> = Vec::new();
    let mut k: usize = 0;
    proof {
        assert(names.names@.is_prefix_of(names.names@)) by {
            assert(names.names@ =~= names.names@.subrange(0, names.names@.len() as int));
        }
    }
    while k < invocations.len()
        invariant
            k <= invocations@.len(),
            r@.len() == k,
            forall|k2: int| 0 <= k2 < invocations@.len() ==> (#[trigger] invocations@[k2])@.len()
                < usize::MAX,
            forall|k2: int| 0 <= k2 < k ==> (#[trigger] r@[k2])@ == spec_expand_invocation(
                invocations@[k2]@,
            ),
            old(names).names@.is_prefix_of(names.names@),
        decreases invocations@.len() - k,
    {
        let ghost pre = names.names@;
        let e = plague_macro(&invocations[k], names);
        proof {
            crate::names::lemma_prefix_trans(old(names).names@, pre, names.names@);
        }
        r.push(e);
        k = k + 1;
    }
    r
}

/// Law: a successfully expanded request yields exactly one generated test
/// per parameter entry, after the re-emitted target (for an inline target);
/// when the labelled entries' labels are pairwise distinct, the tests'
/// names are pairwise distinct, and no test's name is the target's base
/// name.
pub proof fn lemma_expansion_names_unique(s: Seq<Token>, req: RequestV, e: ExpansionV)
    requires
        spec_make_plague(s, req) == Ok::<_, DiagV>(e),
        forall|x: int, y: int|
            0 <= x < y < req.params.len() && #[trigger] req.params[x].label is Some
                && #[trigger] req.params[y].label is Some ==> req.params[x].label
                != req.params[y].label,
    ensures
        e.items.len() == spec_target_items(req.target).len() + req.params.len(),
        forall|k: int|
            0 <= k < req.params.len() ==> (#[trigger] e.items[spec_target_items(
                req.target,
            ).len() + k] matches ItemV::Test(t) && t.name == spec_test_name(
                spec_base_name(req.target),
                req.params[k].label,
                k as nat,
            )),
        forall|x: int, y: int|
            0 <= x < y < req.params.len() ==> spec_test_name(
                spec_base_name(req.target),
                req.params[x].label,
                x as nat,
            ) != spec_test_name(spec_base_name(req.target), req.params[y].label, y as nat),
        forall|k: int|
            0 <= k < req.params.len() ==> spec_test_name(
                spec_base_name(req.target),
                req.params[k].label,
                k as nat,
            ) != spec_base_name(req.target),
{
    let base = spec_base_name(req.target);
    let t = spec_target_items(req.target).len() as int;
    assert forall|k: int| 0 <= k < req.params.len() implies #[trigger] e.items[t + k]
        matches ItemV::Test(ti) && ti.name == spec_test_name(
        base,
        req.params[k].label,
        k as nat,
    ) by {
        assert(e.items[t + k] == ItemV::Test(
            spec_test_item(
                req.target,
                req.params[k],
                k as nat,
                req.should_panic,
                spec_args_of(s, req.target, req.params[k]),
            ),
        ));
    }
    assert forall|x: int, y: int| 0 <= x < y < req.params.len() implies spec_test_name(
        base,
        req.params[x].label,
        x as nat,
    ) != spec_test_name(base, req.params[y].label, y as nat) by {
        crate::names::lemma_test_name_distinct(
            base,
            req.params[x].label,
            x as nat,
            req.params[y].label,
            y as nat,
        );
    }
    assert forall|k: int| 0 <= k < req.params.len() implies spec_test_name(
        base,
        req.params[k].label,
        k as nat,
    ) != base by {
        crate::names::lemma_test_name_not_base(base, req.params[k].label, k as nat);
    }
}

} // verus!
