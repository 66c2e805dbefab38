//! The grammar parser.
//!
//! An invocation is `for [ entries ] test [!] target`, where each entry is
//! `['label] expr [-> expr]` (trailing comma allowed) and the target is
//! either an inline function declaration `fn name[<generics>](formals)
//! [-> type] [where-clause] { body }` or a `::`-separated path to a function
//! defined elsewhere.  The target form is told apart by one token of
//! lookahead: an identifier right after the next token means a declaration.
//!
//! Every parsing function is deterministic and total: its spec counterpart
//! maps the token stream to either the parsed structure and the position
//! after it, or to the one diagnostic that ends this invocation.

use vstd::prelude::*;

use crate::ast::{FnKind, FnKindV, Param, ParamV, ExpansionRequest, RequestV, params_in_range,
    params_view, span_in, strings_view, target_wf};
use crate::diag::{diag_at, DiagKind, Diagnostic, DiagV};
use crate::scan::{expr_end, find_close, angle_end, body_start, lemma_expr_end_bounds,
    spec_expr_end, spec_find_close, spec_angle_end, spec_body_start, spec_split, split_pieces,
    spans_view};
use crate::token::{is_ident_named, span_at, Span, SpanV, Token};

verus! {

/// What parsing one construct yields, spec-side: the parsed value together
/// with the position after it, or the diagnostic that ends the invocation.
pub type ParsedV<T> = Result<(T, int), DiagV>;

/// Requires the token at `i` to be the identifier `kw`; reports a
/// diagnostic of kind `kind` at `i` otherwise.
pub fn expect_keyword(s: &Vec<Token>, i: usize, kw: &str, kind: DiagKind) -> (r: Result<
    (),
    Diagnostic,
>)
    requires
        i <= s@.len() < usize::MAX,
    ensures
        match r {
            Ok(()) => i < s@.len() && is_ident_named(s@[i as int], kw@),
            Err(d) => !(i < s@.len() && is_ident_named(s@[i as int], kw@)) && d@ == diag_at(
                kind,
                span_at(i as int),
            ),
        },
{
    if i < s.len() && s[i].is_kw(kw) {
        Ok(())
    } else {
        Err(Diagnostic::new(kind, Span::at(i)))
    }
}

/// One parameter entry starting at `i`: `['label] expr [-> expr]`.  The
/// entry's expressions run to the next `,`, `->` or closing delimiter at
/// nesting depth zero; an empty run is a missing expression.
pub open spec fn spec_parse_param(s: Seq<Token>, i: int) -> ParsedV<ParamV> {
    let (label, j) = if 0 <= i < s.len() && s[i] is Label {
        (Some(s[i]->Label_0@), i + 1)
    } else {
        (None, i)
    };
    let e = spec_expr_end(s, j, 0);
    if e <= j {
        Err(diag_at(DiagKind::ExpectedExpression, span_at(j)))
    } else {
        let arg = SpanV { lo: j, hi: e };
        if e < s.len() && s[e] is RArrow {
            let e2 = spec_expr_end(s, e + 1, 0);
            if e2 <= e + 1 {
                Err(diag_at(DiagKind::ExpectedExpression, span_at(e + 1)))
            } else {
                Ok((ParamV { label, arg, expected: Some(SpanV { lo: e + 1, hi: e2 }) }, e2))
            }
        } else {
            Ok((ParamV { label, arg, expected: None }, e))
        }
    }
}

/// Parses one parameter entry at `i`.
pub fn parse_param(s: &Vec<Token>, i: usize) -> (r: Result<(Param, usize), Diagnostic>)
    requires
        i <= s@.len() < usize::MAX,
    ensures
        match r {
            Ok((p, j)) => spec_parse_param(s@, i as int) == Ok::<_, DiagV>((p@, j as int)) && i < j
                <= s@.len(),
            Err(d) => spec_parse_param(s@, i as int) == Err::<(ParamV, int), _>(d@),
        },
{
    let mut j: usize = i;
    let mut label: Option<String> = None;
    if j < s.len() {
        if let Token::Label(n) = &s[j] {
            label = Some(n.clone());
            j = j + 1;
        }
    }
    let e = expr_end(s, j);
    if e == j {
        return Err(Diagnostic::new(DiagKind::ExpectedExpression, Span::at(j)));
    }
    let arg = Span { lo: j, hi: e };
    let has_arrow = e < s.len() && matches!(&s[e], Token::RArrow);
    if has_arrow {
        let e2 = expr_end(s, e + 1);
        if e2 == e + 1 {
            return Err(Diagnostic::new(DiagKind::ExpectedExpression, Span::at(e + 1)));
        }
        Ok((Param { label, arg, expected: Some(Span { lo: e + 1, hi: e2 }) }, e2))
    } else {
        Ok((Param { label, arg, expected: None }, e))
    }
}

/// The parameter entries from `i` (just inside the `[` at `open_i`) to the
/// matching `]`, comma-separated with a trailing comma allowed; yields the
/// entries and the position after the `]`.  The two bounds in the recursion
/// only guard termination: a parsed entry always ends past where it began
/// and within the stream.
pub open spec fn spec_parse_entries(s: Seq<Token>, i: int, open_i: int) -> ParsedV<Seq<ParamV>>
    decreases s.len() - i,
{
    if i < 0 || i >= s.len() {
        Err(diag_at(DiagKind::UnclosedDelim, span_at(open_i)))
    } else if s[i] is Close {
        if s[i] matches Token::Close(d) && d is Bracket {
            Ok((Seq::empty(), i + 1))
        } else {
            Err(diag_at(DiagKind::MismatchedDelim, span_at(i)))
        }
    } else {
        match spec_parse_param(s, i) {
            Err(d) => Err(d),
            Ok((p, j)) => {
                if j >= s.len() {
                    Err(diag_at(DiagKind::UnclosedDelim, span_at(open_i)))
                } else if s[j] is Comma {
                    let next = if i < j + 1 <= s.len() {
                        j + 1
                    } else {
                        i + 1
                    };
                    match spec_parse_entries(s, next, open_i) {
                        Err(d) => Err(d),
                        Ok((ps, k)) => Ok((seq![p] + ps, k)),
                    }
                } else if s[j] matches Token::Close(d) && d is Bracket {
                    Ok((seq![p], j + 1))
                } else if s[j] is Close {
                    Err(diag_at(DiagKind::MismatchedDelim, span_at(j)))
                } else {
                    Err(diag_at(DiagKind::ExpectedCommaOrBracket, span_at(j)))
                }
            },
        }
    }
}

/// Parses the parameter entries from `i` (just inside the `[` at `open_i`).
pub fn parse_entries(s: &Vec<Token>, i: usize, open_i: usize) -> (r: Result<
    (Vec<Param>, usize),
    Diagnostic,
>)
    requires
        i <= s@.len() < usize::MAX,
        open_i < i,
    ensures
        match r {
            Ok((ps, k)) => spec_parse_entries(s@, i as int, open_i as int) == Ok::<_, DiagV>(
                (params_view(ps@), k as int),
            ) && i < k <= s@.len(),
            Err(d) => spec_parse_entries(s@, i as int, open_i as int) == Err::<
                (Seq<ParamV>, int),
                _,
            >(d@),
        },
{
    let mut acc: Vec<Param> = Vec::new();
    let mut cur: usize = i;
    proof {
        assert(params_view(acc@) =~= Seq::<ParamV>::empty());
    }
    loop
        invariant
            i <= cur <= s@.len() < usize::MAX,
            open_i < i,
            match spec_parse_entries(s@, cur as int, open_i as int) {
                Ok((ps, k)) => spec_parse_entries(s@, i as int, open_i as int) == Ok::<_, DiagV>(
                    (params_view(acc@) + ps, k),
                ),
                Err(d) => spec_parse_entries(s@, i as int, open_i as int) == Err::<
                    (Seq<ParamV>, int),
                    DiagV,
                >(d),
            },
        decreases s@.len() - cur,
    {
        if cur >= s.len() {
            return Err(Diagnostic::new(DiagKind::UnclosedDelim, Span::at(open_i)));
        }
        match &s[cur] {
            Token::Close(d) => {
                if matches!(d, crate::token::Delim::Bracket) {
                    proof {
                        assert(params_view(acc@) + Seq::<ParamV>::empty() =~= params_view(acc@));
                    }
                    return Ok((acc, cur + 1));
                }
                return Err(Diagnostic::new(DiagKind::MismatchedDelim, Span::at(cur)));
            }
            _ => {}
        }
        let (p, j) = match parse_param(s, cur) {
            Ok(pj) => pj,
            Err(d) => {
                return Err(d);
            },
        };
        if j >= s.len() {
            return Err(Diagnostic::new(DiagKind::UnclosedDelim, Span::at(open_i)));
        }
        let ghost prev = acc@;
        match &s[j] {
            Token::Comma => {
                acc.push(p);
                proof {
                    assert(params_view(acc@) =~= params_view(prev) + seq![p@]);
                    match spec_parse_entries(s@, j + 1, open_i as int) {
                        Ok((ps2, k)) => {
                            assert(spec_parse_entries(s@, cur as int, open_i as int) == Ok::<
                                _,
                                DiagV,
                            >((seq![p@] + ps2, k)));
                            assert(params_view(acc@) + ps2 =~= params_view(prev) + (seq![p@]
                                + ps2));
                        },
                        Err(d) => {
                            assert(spec_parse_entries(s@, cur as int, open_i as int) == Err::<
                                (Seq<ParamV>, int),
                                DiagV,
                            >(d));
                        },
                    }
                }
                cur = j + 1;
            }
            Token::Close(d) => {
                if matches!(d, crate::token::Delim::Bracket) {
                    acc.push(p);
                    proof {
                        assert(params_view(acc@) =~= params_view(prev) + seq![p@]);
                    }
                    return Ok((acc, j + 1));
                }
                return Err(Diagnostic::new(DiagKind::MismatchedDelim, Span::at(j)));
            }
            _ => {
                return Err(Diagnostic::new(DiagKind::ExpectedCommaOrBracket, Span::at(j)));
            }
        }
    }
}

/// A path target starting at `i`: `segment (:: segment)*`; yields the
/// segment texts and the position after the path.
pub open spec fn spec_parse_path(s: Seq<Token>, i: int) -> ParsedV<Seq<Seq<char>>>
    decreases s.len() - i,
{
    if !(0 <= i < s.len() && s[i] is Ident) {
        Err(diag_at(DiagKind::ExpectedPathSegment, span_at(i)))
    } else {
        let seg = s[i]->Ident_0@;
        if i + 1 < s.len() && s[i + 1] is PathSep {
            match spec_parse_path(s, i + 2) {
                Err(d) => Err(d),
                Ok((segs, j)) => Ok((seq![seg] + segs, j)),
            }
        } else {
            Ok((seq![seg], i + 1))
        }
    }
}

/// Parses an external-reference target: the path of the function to call.
/// The referenced function's arity is not known here; the expander treats it
/// conservatively (every entry must be a tuple to unpack).
pub fn parse_fn_use(s: &Vec<Token>, i: usize) -> (r: Result<(FnKind, usize), Diagnostic>)
    requires
        i <= s@.len() < usize::MAX,
    ensures
        match r {
            Ok((f, j)) => spec_parse_path(s@, i as int) matches Ok((segs, jj)) && jj == j as int
                && f@ == (FnKindV::Path {
                segs,
                span: SpanV { lo: i as int, hi: j as int },
            }) && i < j <= s@.len(),
            Err(d) => spec_parse_path(s@, i as int) == Err::<(Seq<Seq<char>>, int), _>(d@),
        },
{
    let mut segs: Vec<String> = Vec::new();
    let mut cur: usize = i;
    proof {
        assert(strings_view(segs@) =~= Seq::<Seq<char>>::empty());
    }
    loop
        invariant
            i <= cur <= s@.len() < usize::MAX,
            match spec_parse_path(s@, cur as int) {
                Ok((ss, k)) => spec_parse_path(s@, i as int) == Ok::<_, DiagV>(
                    (strings_view(segs@) + ss, k),
                ),
                Err(d) => spec_parse_path(s@, i as int) == Err::<(Seq<Seq<char>>, int), DiagV>(d),
            },
        decreases s@.len() - cur,
    {
        if cur >= s.len() {
            return Err(Diagnostic::new(DiagKind::ExpectedPathSegment, Span::at(cur)));
        }
        let seg = match &s[cur] {
            Token::Ident(n) => n.clone(),
            _ => {
                return Err(Diagnostic::new(DiagKind::ExpectedPathSegment, Span::at(cur)));
            },
        };
        let ghost prev = segs@;
        let ghost seg_v = s@[cur as int]->Ident_0@;
        segs.push(seg);
        proof {
            assert(strings_view(segs@) =~= strings_view(prev) + seq![seg_v]);
        }
        let has_sep = cur + 1 < s.len() && matches!(&s[cur + 1], Token::PathSep);
        if !has_sep {
            proof {
                assert(strings_view(prev) + seq![seg_v] + Seq::<Seq<char>>::empty() =~=
                    strings_view(segs@));
            }
            return Ok(
                (FnKind::Path { segs, span: Span { lo: i, hi: cur + 1 } }, cur + 1),
            );
        }
        proof {
            match spec_parse_path(s@, cur + 2) {
                Ok((ss2, k)) => {
                    assert(spec_parse_path(s@, cur as int) == Ok::<_, DiagV>(
                        (seq![seg_v] + ss2, k),
                    ));
                    assert(strings_view(segs@) + ss2 =~= strings_view(prev) + (seq![seg_v] + ss2));
                },
                Err(d) => {
                    assert(spec_parse_path(s@, cur as int) == Err::<(Seq<Seq<char>>, int), DiagV>(
                        d,
                    ));
                },
            }
        }
        cur = cur + 2;
    }
}

pub proof fn lemma_parse_param_props(s: Seq<Token>, i: int)
    requires
        0 <= i <= s.len(),
    ensures
        spec_parse_param(s, i) matches Ok((p, j)) ==> i < j <= s.len() && span_in(
            p.arg,
            s.len() as int,
        ),
{
    let j0 = if 0 <= i < s.len() && s[i] is Label {
        i + 1
    } else {
        i
    };
    lemma_expr_end_bounds(s, j0, 0);
    let e = spec_expr_end(s, j0, 0);
    if e > j0 && e < s.len() && s[e] is RArrow {
        lemma_expr_end_bounds(s, e + 1, 0);
    }
}

pub proof fn lemma_parse_entries_props(s: Seq<Token>, i: int, open_i: int)
    requires
        0 <= i <= s.len(),
    ensures
        spec_parse_entries(s, i, open_i) matches Ok((ps, k)) ==> i < k <= s.len()
            && params_in_range(ps, s.len() as int),
    decreases s.len() - i,
{
    if i < s.len() && !(s[i] is Close) {
        lemma_parse_param_props(s, i);
        match spec_parse_param(s, i) {
            Ok((p, j)) => {
                if j < s.len() && s[j] is Comma {
                    lemma_parse_entries_props(s, j + 1, open_i);
                    match spec_parse_entries(s, j + 1, open_i) {
                        Ok((ps2, k)) => {
                            assert forall|m: int| 0 <= m < (seq![p] + ps2).len() implies span_in(
                                #[trigger] (seq![p] + ps2)[m].arg,
                                s.len() as int,
                            ) by {
                                if m > 0 {
                                    assert((seq![p] + ps2)[m] == ps2[m - 1]);
                                }
                            }
                        },
                        Err(_) => {},
                    }
                }
            },
            Err(_) => {},
        }
    }
}

pub proof fn lemma_parse_path_nonempty(s: Seq<Token>, i: int)
    ensures
        spec_parse_path(s, i) matches Ok((segs, j)) ==> segs.len() >= 1,
{
}

/// An inline target starting at `i`: `fn name [<generics>] (formals)
/// [-> type] [where-clause] { body }`.  The formals' count is the declared
/// arity; the whole declaration's span is kept so it can be re-emitted
/// verbatim.  Yields the declaration and the position after its body.
pub open spec fn spec_parse_fn_decl(s: Seq<Token>, i: int) -> ParsedV<FnKindV> {
    if !(0 <= i < s.len() && is_ident_named(s[i], "fn"@)) {
        Err(diag_at(DiagKind::ExpectedFn, span_at(i)))
    } else if !(i + 1 < s.len() && s[i + 1] is Ident) {
        Err(diag_at(DiagKind::ExpectedFnName, span_at(i + 1)))
    } else {
        let name = s[i + 1]->Ident_0@;
        let gres: Result<int, DiagV> = if i + 2 < s.len() && s[i + 2] == Token::Punct('<') {
            match spec_angle_end(s, i + 3, 1) {
                Some(g) => Ok(g),
                None => Err(diag_at(DiagKind::UnclosedGenerics, span_at(i + 2))),
            }
        } else {
            Ok(i + 2)
        };
        match gres {
            Err(d) => Err(d),
            Ok(p) => {
                if !(p < s.len() && (s[p] matches Token::Open(d) && d is Paren)) {
                    Err(diag_at(DiagKind::ExpectedFnParams, span_at(p)))
                } else {
                    match spec_find_close(s, p + 1, 1) {
                        None => Err(diag_at(DiagKind::UnclosedDelim, span_at(p))),
                        Some(c) => {
                            if !(s[c] matches Token::Close(d) && d is Paren) {
                                Err(diag_at(DiagKind::MismatchedDelim, span_at(c)))
                            } else {
                                let arity = spec_split(s, p + 1, c, true).len();
                                match spec_body_start(s, c + 1, 0) {
                                    None => Err(diag_at(DiagKind::ExpectedFnBody, span_at(c + 1))),
                                    Some(b) => match spec_find_close(s, b + 1, 1) {
                                        None => Err(
                                            diag_at(DiagKind::UnclosedDelim, span_at(b)),
                                        ),
                                        Some(e) => {
                                            if !(s[e] matches Token::Close(d) && d is Brace) {
                                                Err(diag_at(DiagKind::MismatchedDelim, span_at(e)))
                                            } else {
                                                Ok(
                                                    (
                                                        FnKindV::Decl {
                                                            name,
                                                            arity,
                                                            span: SpanV { lo: i, hi: e + 1 },
                                                        },
                                                        e + 1,
                                                    ),
                                                )
                                            }
                                        },
                                    },
                                }
                            }
                        },
                    }
                }
            },
        }
    }
}

/// Parses an inline target at `i`.
pub fn parse_fn_decl(s: &Vec<Token>, i: usize) -> (r: Result<(FnKind, usize), Diagnostic>)
    requires
        i <= s@.len() < usize::MAX,
    ensures
        match r {
            Ok((f, j)) => spec_parse_fn_decl(s@, i as int) == Ok::<_, DiagV>((f@, j as int)) && i
                < j <= s@.len(),
            Err(d) => spec_parse_fn_decl(s@, i as int) == Err::<(FnKindV, int), _>(d@),
        },
{
    if let Err(d) = expect_keyword(s, i, "fn", DiagKind::ExpectedFn) {
        return Err(d);
    }
    let name = if i + 1 < s.len() {
        match &s[i + 1] {
            Token::Ident(n) => n.clone(),
            _ => {
                return Err(Diagnostic::new(DiagKind::ExpectedFnName, Span::at(i + 1)));
            },
        }
    } else {
        return Err(Diagnostic::new(DiagKind::ExpectedFnName, Span::at(i + 1)));
    };
    let has_generics = i + 2 < s.len() && (match &s[i + 2] {
        Token::Punct(c) => *c == '<',
        _ => false,
    });
    let p = if has_generics {
        match angle_end(s, i + 3) {
            Some(g) => g,
            None => {
                return Err(Diagnostic::new(DiagKind::UnclosedGenerics, Span::at(i + 2)));
            },
        }
    } else {
        i + 2
    };
    let params_open = p < s.len() && (match &s[p] {
        Token::Open(d) => matches!(d, crate::token::Delim::Paren),
        _ => false,
    });
    if !params_open {
        return Err(Diagnostic::new(DiagKind::ExpectedFnParams, Span::at(p)));
    }
    let c = match find_close(s, p + 1) {
        Some(c) => c,
        None => {
            return Err(Diagnostic::new(DiagKind::UnclosedDelim, Span::at(p)));
        },
    };
    let close_paren = match &s[c] {
        Token::Close(d) => matches!(d, crate::token::Delim::Paren),
        _ => false,
    };
    if !close_paren {
        return Err(Diagnostic::new(DiagKind::MismatchedDelim, Span::at(c)));
    }
    let formals = split_pieces(s, p + 1, c, true);
    let arity = formals.len();
    proof {
        assert(arity as nat == spec_split(s@, p + 1, c as int, true).len());
    }
    let b = match body_start(s, c + 1) {
        Some(b) => b,
        None => {
            return Err(Diagnostic::new(DiagKind::ExpectedFnBody, Span::at(c + 1)));
        },
    };
    let e = match find_close(s, b + 1) {
        Some(e) => e,
        None => {
            return Err(Diagnostic::new(DiagKind::UnclosedDelim, Span::at(b)));
        },
    };
    let close_brace = match &s[e] {
        Token::Close(d) => matches!(d, crate::token::Delim::Brace),
        _ => false,
    };
    if !close_brace {
        return Err(Diagnostic::new(DiagKind::MismatchedDelim, Span::at(e)));
    }
    Ok((FnKind::Decl { name, arity, span: Span { lo: i, hi: e + 1 } }, e + 1))
}

/// The target after `test [!]`, told apart by one token of lookahead: an
/// identifier right after the next token means an inline declaration (as in
/// `fn name ...`); anything else means a path reference.
pub open spec fn spec_parse_target(s: Seq<Token>, i: int) -> ParsedV<FnKindV> {
    if i + 1 < s.len() && s[i + 1] is Ident {
        spec_parse_fn_decl(s, i)
    } else {
        match spec_parse_path(s, i) {
            Err(d) => Err(d),
            Ok((segs, j)) => Ok((FnKindV::Path { segs, span: SpanV { lo: i, hi: j } }, j)),
        }
    }
}

/// Parses the target at `i`.
pub fn parse_target(s: &Vec<Token>, i: usize) -> (r: Result<(FnKind, usize), Diagnostic>)
    requires
        i <= s@.len() < usize::MAX,
    ensures
        match r {
            Ok((f, j)) => spec_parse_target(s@, i as int) == Ok::<_, DiagV>((f@, j as int)) && i
                < j <= s@.len(),
            Err(d) => spec_parse_target(s@, i as int) == Err::<(FnKindV, int), _>(d@),
        },
{
    let is_decl = i + 1 < s.len() && matches!(&s[i + 1], Token::Ident(_));
    if is_decl {
        parse_fn_decl(s, i)
    } else {
        parse_fn_use(s, i)
    }
}

/// A whole invocation: `for [ entries ] test [!] target`, with nothing after
/// the target.  Yields the expansion request, or the one diagnostic that
/// ends this invocation.
pub open spec fn spec_parse_plague(s: Seq<Token>) -> Result<RequestV, DiagV> {
    if !(0 < s.len() && is_ident_named(s[0], "for"@)) {
        Err(diag_at(DiagKind::ExpectedFor, span_at(0)))
    } else if !(1 < s.len() && (s[1] matches Token::Open(d) && d is Bracket)) {
        Err(diag_at(DiagKind::ExpectedParamList, span_at(1)))
    } else {
        match spec_parse_entries(s, 2, 1) {
            Err(d) => Err(d),
            Ok((params, j)) => {
                if !(j < s.len() && is_ident_named(s[j], "test"@)) {
                    Err(diag_at(DiagKind::ExpectedTest, span_at(j)))
                } else {
                    let (should_panic, k) = if j + 1 < s.len() && s[j + 1] is Bang {
                        (true, j + 2)
                    } else {
                        (false, j + 1)
                    };
                    match spec_parse_target(s, k) {
                        Err(d) => Err(d),
                        Ok((target, p)) => {
                            if p == s.len() {
                                Ok(
                                    RequestV {
                                        params,
                                        params_span: SpanV { lo: 1, hi: j },
                                        target,
                                        should_panic,
                                    },
                                )
                            } else {
                                Err(diag_at(DiagKind::ExpectedEndOfMacro, span_at(p)))
                            }
                        },
                    }
                }
            },
        }
    }
}

/// What the parser yields is well formed: the target of a parsed request is
/// well formed and every entry's argument span lies within the stream.
pub proof fn lemma_parse_plague_props(s: Seq<Token>)
    ensures
        spec_parse_plague(s) matches Ok(req) ==> target_wf(req.target) && params_in_range(
            req.params,
            s.len() as int,
        ),
{
    if 0 < s.len() && is_ident_named(s[0], "for"@) && 1 < s.len() && (s[1] matches Token::Open(d)
        && d is Bracket) {
        lemma_parse_entries_props(s, 2, 1);
        match spec_parse_entries(s, 2, 1) {
            Ok((params, j)) => {
                if j < s.len() && is_ident_named(s[j], "test"@) {
                    let k = if j + 1 < s.len() && s[j + 1] is Bang {
                        j + 2
                    } else {
                        j + 1
                    };
                    if !(k + 1 < s.len() && s[k + 1] is Ident) {
                        lemma_parse_path_nonempty(s, k);
                    }
                }
            },
            Err(_) => {},
        }
    }
}

/// Parses a whole invocation.
pub fn parse_plague(s: &Vec<Token>) -> (r: Result<ExpansionRequest, Diagnostic>)
    requires
        s@.len() < usize::MAX,
    ensures
        match r {
            Ok(req) => spec_parse_plague(s@) == Ok::<_, DiagV>(req@),
            Err(d) => spec_parse_plague(s@) == Err::<RequestV, _>(d@),
        },
{
    if let Err(d) = expect_keyword(s, 0, "for", DiagKind::ExpectedFor) {
        return Err(d);
    }
    let list_open = 1 < s.len() && (match &s[1] {
        Token::Open(d) => matches!(d, crate::token::Delim::Bracket),
        _ => false,
    });
    if !list_open {
        return Err(Diagnostic::new(DiagKind::ExpectedParamList, Span::at(1)));
    }
    let (params, j) = match parse_entries(s, 2, 1) {
        Ok(pj) => pj,
        Err(d) => {
            return Err(d);
        },
    };
    if let Err(d) = expect_keyword(s, j, "test", DiagKind::ExpectedTest) {
        return Err(d);
    }
    let has_bang = j + 1 < s.len() && matches!(&s[j + 1], Token::Bang);
    let (should_panic, k) = if has_bang {
        (true, j + 2)
    } else {
        (false, j + 1)
    };
    let (target, p) = match parse_target(s, k) {
        Ok(tp) => tp,
        Err(d) => {
            return Err(d);
        },
    };
    if p != s.len() {
        return Err(Diagnostic::new(DiagKind::ExpectedEndOfMacro, Span::at(p)));
    }
    Ok(ExpansionRequest { params, params_span: Span { lo: 1, hi: j }, target, should_panic })
}

} // verus!
