//! Depth-tracking scans over a token stream.
//!
//! Three scans drive the whole grammar: finding where an expression ends
//! (the next `,`, `->` or closing delimiter at nesting depth zero), finding
//! the closing delimiter that matches an opening one, and splitting a token
//! range into its comma-separated pieces.  Each scan is defined by a spec
//! function and computed by a verified loop.

use vstd::prelude::*;

use crate::token::{angle_delta, delim_delta, delim_step, Delim, Span, SpanV, Token};

verus! {

/// Whether a token ends an expression when it occurs at nesting depth zero.
pub open spec fn is_expr_stop(t: Token) -> bool {
    t is Comma || t is RArrow || t is Close
}

/// The index at which the expression starting at `i` under `depth` open
/// delimiters ends: the first position at depth zero holding `,`, `->` or a
/// closing delimiter, or the end of the stream.
pub open spec fn spec_expr_end(s: Seq<Token>, i: int, depth: int) -> int
    decreases s.len() - i,
{
    if i < 0 || i >= s.len() {
        s.len() as int
    } else if depth <= 0 && is_expr_stop(s[i]) {
        i
    } else {
        spec_expr_end(s, i + 1, depth + delim_delta(s[i]))
    }
}

pub proof fn lemma_expr_end_bounds(s: Seq<Token>, i: int, depth: int)
    requires
        0 <= i <= s.len(),
    ensures
        i <= spec_expr_end(s, i, depth) <= s.len(),
    decreases s.len() - i,
{
    if i < s.len() && !(depth <= 0 && is_expr_stop(s[i])) {
        lemma_expr_end_bounds(s, i + 1, depth + delim_delta(s[i]));
    }
}

/// Computes [`spec_expr_end`] from position `i` at depth zero.
pub fn expr_end(s: &Vec<Token>, i: usize) -> (r: usize)
    requires
        i <= s@.len(),
    ensures
        r == spec_expr_end(s@, i as int, 0),
        i <= r <= s@.len(),
{
    let mut j: usize = i;
    let mut depth: usize = 0;
    loop
        invariant
            i <= j <= s@.len(),
            depth <= j - i,
            spec_expr_end(s@, i as int, 0) == spec_expr_end(s@, j as int, depth as int),
        decreases s@.len() - j,
    {
        if j >= s.len() {
            return j;
        }
        let stop = match &s[j] {
            Token::Comma => true,
            Token::RArrow => true,
            Token::Close(_) => true,
            _ => false,
        };
        if depth == 0 && stop {
            return j;
        }
        match &s[j] {
            Token::Open(_) => {
                depth = depth + 1;
            }
            Token::Close(_) => {
                depth = depth - 1;
            }
            _ => {}
        }
        j = j + 1;
    }
}

/// The index of the closing delimiter that matches an opening one: scanning
/// from `i` with `depth` delimiters already open, the first position where
/// the depth returns to zero, or `None` if the stream ends first.
pub open spec fn spec_find_close(s: Seq<Token>, i: int, depth: int) -> Option<int>
    decreases s.len() - i,
{
    if i < 0 || i >= s.len() {
        None
    } else if s[i] is Close && depth <= 1 {
        Some(i)
    } else {
        spec_find_close(s, i + 1, depth + delim_delta(s[i]))
    }
}

/// Computes [`spec_find_close`] from position `i` (just after an opening
/// delimiter) at depth one.
pub fn find_close(s: &Vec<Token>, i: usize) -> (r: Option<usize>)
    requires
        i <= s@.len() < usize::MAX,
    ensures
        match r {
            Some(j) => spec_find_close(s@, i as int, 1) == Some(j as int) && i <= j < s@.len(),
            None => spec_find_close(s@, i as int, 1) is None,
        },
{
    let mut j: usize = i;
    let mut depth: usize = 1;
    loop
        invariant
            i <= j <= s@.len() < usize::MAX,
            1 <= depth <= 1 + j - i,
            spec_find_close(s@, i as int, 1) == spec_find_close(s@, j as int, depth as int),
        decreases s@.len() - j,
    {
        if j >= s.len() {
            return None;
        }
        match &s[j] {
            Token::Close(_) => {
                if depth == 1 {
                    return Some(j);
                }
                depth = depth - 1;
            }
            Token::Open(_) => {
                depth = depth + 1;
            }
            _ => {}
        }
        j = j + 1;
    }
}

/// The position just after the `>` that closes a generic parameter list:
/// scanning from `i` with `ad` angle brackets already open, the position
/// after the first `>` that brings the count to zero, or `None` if the
/// stream ends first.
pub open spec fn spec_angle_end(s: Seq<Token>, i: int, ad: int) -> Option<int>
    decreases s.len() - i,
{
    if i < 0 || i >= s.len() {
        None
    } else if s[i] == Token::Punct('>') && ad <= 1 {
        Some(i + 1)
    } else if s[i] == Token::Punct('>') {
        spec_angle_end(s, i + 1, ad - 1)
    } else if s[i] == Token::Punct('<') {
        spec_angle_end(s, i + 1, ad + 1)
    } else {
        spec_angle_end(s, i + 1, ad)
    }
}

/// Computes [`spec_angle_end`] from position `i` (just after a `<`) with one
/// angle bracket open.
pub fn angle_end(s: &Vec<Token>, i: usize) -> (r: Option<usize>)
    requires
        i <= s@.len() < usize::MAX,
    ensures
        match r {
            Some(j) => spec_angle_end(s@, i as int, 1) == Some(j as int) && i < j <= s@.len(),
            None => spec_angle_end(s@, i as int, 1) is None,
        },
{
    let mut j: usize = i;
    let mut ad: usize = 1;
    loop
        invariant
            i <= j <= s@.len() < usize::MAX,
            1 <= ad <= 1 + j - i,
            spec_angle_end(s@, i as int, 1) == spec_angle_end(s@, j as int, ad as int),
        decreases s@.len() - j,
    {
        if j >= s.len() {
            return None;
        }
        match &s[j] {
            Token::Punct(c) => {
                if *c == '>' {
                    if ad == 1 {
                        return Some(j + 1);
                    }
                    ad = ad - 1;
                } else if *c == '<' {
                    ad = ad + 1;
                }
            }
            _ => {}
        }
        j = j + 1;
    }
}

/// The position of the first `{` at delimiter nesting depth zero, scanning
/// from `i` with `dd` delimiters already open: where an inline function
/// declaration's body starts, past its return type and where clause.
pub open spec fn spec_body_start(s: Seq<Token>, i: int, dd: int) -> Option<int>
    decreases s.len() - i,
{
    if i < 0 || i >= s.len() {
        None
    } else if dd <= 0 && (s[i] matches Token::Open(d) && d is Brace) {
        Some(i)
    } else {
        spec_body_start(s, i + 1, delim_step(s[i], dd))
    }
}

/// Computes [`spec_body_start`] from position `i` at depth zero.
pub fn body_start(s: &Vec<Token>, i: usize) -> (r: Option<usize>)
    requires
        i <= s@.len(),
    ensures
        match r {
            Some(j) => spec_body_start(s@, i as int, 0) == Some(j as int) && i <= j < s@.len(),
            None => spec_body_start(s@, i as int, 0) is None,
        },
{
    let mut j: usize = i;
    let mut dd: usize = 0;
    loop
        invariant
            i <= j <= s@.len(),
            dd <= j - i,
            spec_body_start(s@, i as int, 0) == spec_body_start(s@, j as int, dd as int),
        decreases s@.len() - j,
    {
        if j >= s.len() {
            return None;
        }
        match &s[j] {
            Token::Open(d) => {
                if dd == 0 && matches!(d, Delim::Brace) {
                    return Some(j);
                }
                dd = dd + 1;
            }
            Token::Close(_) => {
                if dd > 0 {
                    dd = dd - 1;
                }
            }
            _ => {}
        }
        j = j + 1;
    }
}

/// Whether `s[i..hi)` holds a comma at delimiter nesting depth zero,
/// starting with `dd` delimiters open: what tells a tuple literal `(a, b)`
/// or `(a,)` from a merely parenthesized expression `(a)`.
pub open spec fn spec_has_top_comma(s: Seq<Token>, i: int, hi: int, dd: int) -> bool
    decreases hi - i,
{
    if i < 0 || i >= hi || hi > s.len() {
        false
    } else if dd <= 0 && s[i] is Comma {
        true
    } else {
        spec_has_top_comma(s, i + 1, hi, delim_step(s[i], dd))
    }
}

/// Computes [`spec_has_top_comma`] on `s[i..hi)` from depth zero.
pub fn has_top_comma(s: &Vec<Token>, i: usize, hi: usize) -> (r: bool)
    requires
        i <= hi <= s@.len(),
    ensures
        r == spec_has_top_comma(s@, i as int, hi as int, 0),
{
    let mut j: usize = i;
    let mut dd: usize = 0;
    loop
        invariant
            i <= j <= hi <= s@.len(),
            dd <= j - i,
            spec_has_top_comma(s@, i as int, hi as int, 0) == spec_has_top_comma(
                s@,
                j as int,
                hi as int,
                dd as int,
            ),
        decreases hi - j,
    {
        if j >= hi {
            return false;
        }
        match &s[j] {
            Token::Comma => {
                if dd == 0 {
                    return true;
                }
            }
            Token::Open(_) => {
                dd = dd + 1;
            }
            Token::Close(_) => {
                if dd > 0 {
                    dd = dd - 1;
                }
            }
            _ => {}
        }
        j = j + 1;
    }
}

/// The views of a vector of spans.
pub open spec fn spans_view(v: Seq<Span>) -> Seq<SpanV> {
    v.map_values(|sp: Span| sp@)
}

/// The comma-separated pieces of `s[lo..hi)`: the spans of its maximal
/// nonempty runs between commas that sit at delimiter nesting depth zero
/// (and, when `angles` is set, outside any `<`...`>` pair).  Trailing and
/// duplicated commas contribute no piece.
pub open spec fn spec_split(s: Seq<Token>, lo: int, hi: int, angles: bool) -> Seq<SpanV> {
    spec_split_from(s, lo, hi, angles, 0, 0, lo)
}

pub open spec fn spec_split_from(
    s: Seq<Token>,
    i: int,
    hi: int,
    angles: bool,
    dd: int,
    ad: int,
    start: int,
) -> Seq<SpanV>
    decreases hi - i,
{
    if i < 0 || i >= hi {
        if start < hi {
            seq![SpanV { lo: start, hi: hi }]
        } else {
            seq![]
        }
    } else if dd <= 0 && ad <= 0 && s[i] is Comma {
        (if start < i {
            seq![SpanV { lo: start, hi: i }]
        } else {
            seq![]
        }) + spec_split_from(s, i + 1, hi, angles, 0, 0, i + 1)
    } else {
        spec_split_from(
            s,
            i + 1,
            hi,
            angles,
            delim_step(s[i], dd),
            if angles {
                angle_delta(s[i], ad)
            } else {
                0
            },
            start,
        )
    }
}

/// Computes [`spec_split`] on `s[lo..hi)`.
pub fn split_pieces(s: &Vec<Token>, lo: usize, hi: usize, angles: bool) -> (r: Vec<Span>)
    requires
        lo <= hi <= s@.len(),
    ensures
        spans_view(r@) == spec_split(s@, lo as int, hi as int, angles),
{
    let mut out: Vec<Span> = Vec::new();
    let mut i: usize = lo;
    let mut dd: usize = 0;
    let mut ad: usize = 0;
    let mut start: usize = lo;
    loop
        invariant
            lo <= start <= i <= hi <= s@.len(),
            dd <= i - start,
            ad <= i - start,
            !angles ==> ad == 0,
            spec_split(s@, lo as int, hi as int, angles) == spans_view(out@) + spec_split_from(
                s@,
                i as int,
                hi as int,
                angles,
                dd as int,
                ad as int,
                start as int,
            ),
        decreases hi - i,
    {
        if i >= hi {
            if start < hi {
                let ghost prev = out@;
                out.push(Span { lo: start, hi });
                proof {
                    assert(spans_view(out@) =~= spans_view(prev) + seq![
                        SpanV { lo: start as int, hi: hi as int },
                    ]);
                }
            }
            return out;
        }
        let ghost rest = spec_split_from(
            s@,
            i as int,
            hi as int,
            angles,
            dd as int,
            ad as int,
            start as int,
        );
        let is_comma = match &s[i] {
            Token::Comma => true,
            _ => false,
        };
        if dd == 0 && ad == 0 && is_comma {
            let ghost rec = spec_split_from(s@, i + 1, hi as int, angles, 0, 0, i + 1);
            if start < i {
                let ghost prev = out@;
                out.push(Span { lo: start, hi: i });
                proof {
                    assert(spans_view(out@) =~= spans_view(prev) + seq![
                        SpanV { lo: start as int, hi: i as int },
                    ]);
                    assert(spans_view(out@) + rec =~= spans_view(prev) + rest);
                }
            } else {
                proof {
                    assert(rest =~= rec);
                }
            }
            dd = 0;
            ad = 0;
            start = i + 1;
        } else {
            match &s[i] {
                Token::Open(_) => {
                    dd = dd + 1;
                }
                Token::Close(_) => {
                    if dd > 0 {
                        dd = dd - 1;
                    }
                }
                Token::Punct(c) => {
                    if angles {
                        if *c == '<' {
                            ad = ad + 1;
                        } else if *c == '>' && ad > 0 {
                            ad = ad - 1;
                        }
                    }
                }
                _ => {}
            }
            proof {
                assert(rest == spec_split_from(
                    s@,
                    i + 1,
                    hi as int,
                    angles,
                    dd as int,
                    ad as int,
                    start as int,
                ));
            }
        }
        i = i + 1;
    }
}

} // verus!
