//! Names of generated tests, and the name-interning context.
//!
//! The test generated for an entry is named after the target's base name
//! plus a distinguishing suffix: `'label` when the entry is labelled, `#k`
//! for the entry at zero-based position `k` otherwise.  Labels and positions
//! are syntactically disjoint — one suffix starts with a quote, the other
//! with a hash — so the names of one invocation's tests never collide.

use vstd::prelude::*;
use vstd::string::StringExecFns;

use crate::ast::strings_view;

verus! {

/// The character of a decimal digit.
pub open spec fn digit_char(d: nat) -> char {
    if d == 0 {
        '0'
    } else if d == 1 {
        '1'
    } else if d == 2 {
        '2'
    } else if d == 3 {
        '3'
    } else if d == 4 {
        '4'
    } else if d == 5 {
        '5'
    } else if d == 6 {
        '6'
    } else if d == 7 {
        '7'
    } else if d == 8 {
        '8'
    } else {
        '9'
    }
}

/// The decimal rendering of `n`, most significant digit first.
pub open spec fn spec_digits(n: nat) -> Seq<char>
    decreases n,
{
    if n < 10 {
        seq![digit_char(n)]
    } else {
        spec_digits(n / 10) + seq![digit_char(n % 10)]
    }
}

/// The distinguishing suffix of a generated test's name: the entry's label
/// after a quote, or its zero-based position after a hash.
pub open spec fn spec_suffix(label: Option<Seq<char>>, idx: nat) -> Seq<char> {
    match label {
        Some(l) => seq!['\''] + l,
        None => seq!['#'] + spec_digits(idx),
    }
}

/// The name of the test generated for entry `idx`: the target's base name
/// followed by the entry's suffix.
pub open spec fn spec_test_name(base: Seq<char>, label: Option<Seq<char>>, idx: nat) -> Seq<char> {
    base + spec_suffix(label, idx)
}

/// The one-character string of a decimal digit.
fn digit_str(d: usize) -> (r: &'static str)
    requires
        d < 10,
    ensures
        r@ == seq![digit_char(d as nat)],
{
    proof {
        reveal_strlit("0");
        reveal_strlit("1");
        reveal_strlit("2");
        reveal_strlit("3");
        reveal_strlit("4");
        reveal_strlit("5");
        reveal_strlit("6");
        reveal_strlit("7");
        reveal_strlit("8");
        reveal_strlit("9");
    }
    let r = if d == 0 {
        "0"
    } else if d == 1 {
        "1"
    } else if d == 2 {
        "2"
    } else if d == 3 {
        "3"
    } else if d == 4 {
        "4"
    } else if d == 5 {
        "5"
    } else if d == 6 {
        "6"
    } else if d == 7 {
        "7"
    } else if d == 8 {
        "8"
    } else {
        "9"
    };
    proof {
        assert(r@ =~= seq![digit_char(d as nat)]);
    }
    r
}

/// Appends the decimal rendering of `n` to `out`.
fn push_decimal(n: usize, out: &mut String)
    ensures
        final(out)@ == old(out)@ + spec_digits(n as nat),
    decreases n,
{
    if n >= 10 {
        push_decimal(n / 10, out);
        let ghost mid = out@;
        out.append(digit_str(n % 10));
        proof {
            assert(out@ =~= old(out)@ + spec_digits(n as nat));
        }
    } else {
        out.append(digit_str(n));
        proof {
            assert(out@ =~= old(out)@ + spec_digits(n as nat));
        }
    }
}

pub proof fn lemma_digits_len(n: nat)
    ensures
        spec_digits(n).len() >= 1,
        n >= 10 ==> spec_digits(n).len() >= 2,
    decreases n,
{
    if n >= 10 {
        lemma_digits_len(n / 10);
    }
}

/// Distinct numbers render to distinct digit sequences.
pub proof fn lemma_digits_injective(a: nat, b: nat)
    requires
        a != b,
    ensures
        spec_digits(a) != spec_digits(b),
    decreases a + b,
{
    if a < 10 && b < 10 {
        assert(digit_char(a) != digit_char(b));
        assert(spec_digits(a)[0] == digit_char(a));
        assert(spec_digits(b)[0] == digit_char(b));
    } else if a < 10 {
        lemma_digits_len(b);
    } else if b < 10 {
        lemma_digits_len(a);
    } else {
        let da = spec_digits(a);
        let db = spec_digits(b);
        assert(da.last() == digit_char(a % 10));
        assert(db.last() == digit_char(b % 10));
        if a % 10 != b % 10 {
            assert(digit_char(a % 10) != digit_char(b % 10));
            if da == db {
                assert(da.last() == db.last());
                assert(false);
            }
        } else {
            assert(a / 10 != b / 10) by {
                vstd::arithmetic::div_mod::lemma_fundamental_div_mod(a as int, 10);
                vstd::arithmetic::div_mod::lemma_fundamental_div_mod(b as int, 10);
            }
            lemma_digits_injective(a / 10, b / 10);
            if da == db {
                assert(da.drop_last() =~= spec_digits(a / 10));
                assert(db.drop_last() =~= spec_digits(b / 10));
                assert(false);
            }
        }
    }
}

/// Entries that differ in label — or, unlabelled, in position — get
/// distinct suffixes.
pub proof fn lemma_suffix_injective(l1: Option<Seq<char>>, i1: nat, l2: Option<Seq<char>>, i2: nat)
    requires
        match (l1, l2) {
            (Some(a), Some(b)) => a != b,
            (None, None) => i1 != i2,
            _ => true,
        },
    ensures
        spec_suffix(l1, i1) != spec_suffix(l2, i2),
{
    let s1 = spec_suffix(l1, i1);
    let s2 = spec_suffix(l2, i2);
    match (l1, l2) {
        (Some(a), Some(b)) => {
            if s1 == s2 {
                assert(s1.len() == 1 + a.len());
                assert(s2.len() == 1 + b.len());
                assert(a =~= b) by {
                    assert(a.len() == b.len());
                    assert forall|k: int| 0 <= k < a.len() implies a[k] == b[k] by {
                        assert(s1[k + 1] == a[k]);
                        assert(s2[k + 1] == b[k]);
                    }
                }
                assert(false);
            }
        },
        (None, None) => {
            lemma_digits_injective(i1, i2);
            let da = spec_digits(i1);
            let db = spec_digits(i2);
            if s1 == s2 {
                assert(s1.len() == 1 + da.len());
                assert(s2.len() == 1 + db.len());
                assert(da =~= db) by {
                    assert(da.len() == db.len());
                    assert forall|k: int| 0 <= k < da.len() implies da[k] == db[k] by {
                        assert(s1[k + 1] == da[k]);
                        assert(s2[k + 1] == db[k]);
                    }
                }
                assert(false);
            }
        },
        (Some(a), None) => {
            assert(s1[0] == '\'');
            assert(s2[0] == '#');
        },
        (None, Some(b)) => {
            assert(s1[0] == '#');
            assert(s2[0] == '\'');
        },
    }
}

/// Law: no generated test's name is the target's own base name — the
/// distinguishing suffix is never empty.
pub proof fn lemma_test_name_not_base(base: Seq<char>, l: Option<Seq<char>>, i: nat)
    ensures
        spec_test_name(base, l, i) != base,
{
    if l is None {
        lemma_digits_len(i);
    }
    assert(spec_suffix(l, i).len() >= 1);
    assert(spec_test_name(base, l, i).len() > base.len());
}

/// Law: two generated test names of one invocation differ whenever their
/// entries' labels differ or, for unlabelled entries, their positions do;
/// and no generated name is the target's own base name.
pub proof fn lemma_test_name_distinct(
    base: Seq<char>,
    l1: Option<Seq<char>>,
    i1: nat,
    l2: Option<Seq<char>>,
    i2: nat,
)
    requires
        match (l1, l2) {
            (Some(a), Some(b)) => a != b,
            (None, None) => i1 != i2,
            _ => true,
        },
    ensures
        spec_test_name(base, l1, i1) != spec_test_name(base, l2, i2),
        spec_test_name(base, l1, i1) != base,
{
    lemma_suffix_injective(l1, i1, l2, i2);
    lemma_test_name_not_base(base, l1, i1);
    let s1 = spec_suffix(l1, i1);
    let s2 = spec_suffix(l2, i2);
    assert(spec_test_name(base, l1, i1) == base + s1);
    assert(spec_test_name(base, l2, i2) == base + s2);
    if spec_test_name(base, l1, i1) == spec_test_name(base, l2, i2) {
        assert(s1 =~= s2) by {
            assert(s1.len() == s2.len());
            assert forall|k: int| 0 <= k < s1.len() implies s1[k] == s2[k] by {
                assert((base + s1)[base.len() + k] == s1[k]);
                assert((base + s2)[base.len() + k] == s2[k]);
            }
        }
        assert(false);
    }
}

/// The view of an optional label.
pub open spec fn label_view(label: Option<String>) -> Option<Seq<char>> {
    match label {
        Some(l) => Some(l@),
        None => None,
    }
}

/// Builds the name of the test generated for entry `idx` of a target whose
/// base name is `base`.
pub fn test_name(base: &str, label: &Option<String>, idx: usize) -> (r: String)
    ensures
        r@ == spec_test_name(base@, label_view(*label), idx as nat),
{
    proof {
        reveal_strlit("'");
        reveal_strlit("#");
    }
    let mut out = base.to_owned();
    match label {
        Some(l) => {
            out.append("'");
            let ghost mid = out@;
            out.append(l.as_str());
            proof {
                assert("'"@ =~= seq!['\'']);
                assert(out@ =~= base@ + (seq!['\''] + l@));
            }
        },
        None => {
            out.append("#");
            let ghost mid = out@;
            push_decimal(idx, &mut out);
            proof {
                assert("#"@ =~= seq!['#']);
                assert(out@ =~= base@ + (seq!['#'] + spec_digits(idx as nat)));
            }
        },
    }
    out
}

/// Prefixes chain: what was in the registry before two growths is still a
/// prefix after both.
pub proof fn lemma_prefix_trans(a: Seq<String>, b: Seq<String>, c: Seq<String>)
    requires
        a.is_prefix_of(b),
        b.is_prefix_of(c),
    ensures
        a.is_prefix_of(c),
{
    assert forall|i: int| 0 <= i < a.len() implies a[i] == c[i] by {
        assert(a[i] == b.subrange(0, a.len() as int)[i]);
        assert(b[i] == c.subrange(0, b.len() as int)[i]);
    }
    assert(a =~= c.subrange(0, a.len() as int));
}

/// The first position in `names` holding the text `s`, from `k` on.
pub open spec fn spec_find_name(names: Seq<String>, s: Seq<char>, k: int) -> Option<int>
    decreases names.len() - k,
{
    if k < 0 || k >= names.len() {
        None
    } else if names[k]@ == s {
        Some(k)
    } else {
        spec_find_name(names, s, k + 1)
    }
}

/// The name-interning context: the registry the expander mints generated
/// names through.  It only ever grows — an expansion run appends the names
/// it mints and never changes or removes an existing entry — so independent
/// runs sharing one context cannot interfere with one another.
#[derive(Debug)]
pub struct NameCx {
    /// The interned names, in order of first interning.
    pub names: Vec<String>,
}

impl NameCx {
    /// An empty context.
    pub fn new() -> (r: NameCx)
        ensures
            r.names@.len() == 0,
    {
        NameCx { names: Vec::new() }
    }

    /// Interns `s`: returns the position of its first earlier occurrence,
    /// or appends it and returns the new position.  Existing entries are
    /// never changed.
    pub fn intern(&mut self, s: String) -> (idx: usize)
        ensures
            match spec_find_name(old(self).names@, s@, 0) {
                Some(j) => final(self).names@ == old(self).names@ && idx as int == j,
                None => final(self).names@ == old(self).names@.push(s) && idx as int == old(
                    self,
                ).names@.len(),
            },
            old(self).names@.is_prefix_of(final(self).names@),
            idx < final(self).names@.len(),
            final(self).names@[idx as int]@ == s@,
    {
        let mut k: usize = 0;
        while k < self.names.len()
            invariant
                k <= self.names@.len(),
                self.names@ == old(self).names@,
                spec_find_name(self.names@, s@, 0) == spec_find_name(self.names@, s@, k as int),
            decreases self.names@.len() - k,
        {
            if String::eq(&self.names[k], &s) {
                proof {
                    assert(self.names@.is_prefix_of(self.names@)) by {
                        assert(self.names@ =~= self.names@.take(self.names@.len() as int));
                    }
                }
                return k;
            }
            k = k + 1;
        }
        let idx = self.names.len();
        let ghost prev = self.names@;
        proof {
            assert(spec_find_name(prev, s@, k as int) is None);
        }
        self.names.push(s);
        proof {
            assert(prev.is_prefix_of(self.names@)) by {
                assert(prev =~= self.names@.take(prev.len() as int));
            }
        }
        idx
    }
}

} // verus!
