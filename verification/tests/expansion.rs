//! End-to-end tests of the invocation expander: grammar, shape analysis,
//! synthesis, naming, diagnostics, and isolation between invocations.

use plague::ast::FnKind;
use plague::diag::{DiagKind, Level};
use plague::expand::{expand_all, plague_macro, Expansion, Item};
use plague::names::{test_name, NameCx};
use plague::parse::{parse_fn_decl, parse_plague};
use plague::token::{Delim, Span, Token};

fn id(s: &str) -> Token {
    Token::Ident(s.to_string())
}

fn lit(s: &str) -> Token {
    Token::Literal(s.to_string())
}

fn lab(s: &str) -> Token {
    Token::Label(s.to_string())
}

fn open(d: Delim) -> Token {
    Token::Open(d)
}

fn close(d: Delim) -> Token {
    Token::Close(d)
}

fn punct(c: char) -> Token {
    Token::Punct(c)
}

fn sp(lo: usize, hi: usize) -> Span {
    Span { lo, hi }
}

fn expand(tts: Vec<Token>) -> Expansion {
    let mut names = NameCx { names: Vec::new() };
    plague_macro(&tts, &mut names)
}

/// `for [ (x, y) -> z ] test fn f(a: i32, b: i32) -> i32 { a + b }`
fn two_param_inline() -> Vec<Token> {
    vec![
        id("for"),                     // 0
        open(Delim::Bracket),          // 1
        open(Delim::Paren),            // 2
        id("x"),                       // 3
        Token::Comma,                  // 4
        id("y"),                       // 5
        close(Delim::Paren),           // 6
        Token::RArrow,                 // 7
        id("z"),                       // 8
        close(Delim::Bracket),         // 9
        id("test"),                    // 10
        id("fn"),                      // 11
        id("f"),                       // 12
        open(Delim::Paren),            // 13
        id("a"),                       // 14
        punct(':'),                    // 15
        id("i32"),                     // 16
        Token::Comma,                  // 17
        id("b"),                       // 18
        punct(':'),                    // 19
        id("i32"),                     // 20
        close(Delim::Paren),           // 21
        Token::RArrow,                 // 22
        id("i32"),                     // 23
        open(Delim::Brace),            // 24
        id("a"),                       // 25
        punct('+'),                    // 26
        id("b"),                       // 27
        close(Delim::Brace),           // 28
    ]
}

#[test]
fn expands_tuple_entry_against_two_param_target() {
    let e = expand(two_param_inline());
    assert!(e.diags.is_empty());
    assert_eq!(e.items.len(), 2);
    match &e.items[0] {
        Item::Target { name, span } => {
            assert_eq!(name, "f");
            assert_eq!(*span, sp(11, 29));
        }
        _ => panic!("expected the re-emitted target first"),
    }
    match &e.items[1] {
        Item::Test(t) => {
            assert_eq!(t.name, "f#0");
            assert!(t.markers.is_test);
            assert!(!t.markers.should_panic);
            assert_eq!(t.callee, vec!["f".to_string()]);
            assert_eq!(t.args, vec![sp(3, 4), sp(5, 6)]);
            assert_eq!(t.expected, Some(sp(8, 9)));
        }
        _ => panic!("expected a generated test"),
    }
}

#[test]
fn generated_test_asserts_equality_semantics() {
    // The generated test for `(x, y) -> z` is equivalent to: compute
    // f(x, y), fail unless it equals z.  With f(a, b) = a + b:
    fn f(a: i32, b: i32) -> i32 {
        a + b
    }
    let (x, y, z) = (2, 3, 5);
    let got = f(x, y);
    let exp = z;
    assert!(got == exp, "test failed: got `{:?}`, expected `{:?}`", got, exp);
}

/// `for [ x ] test fn g(a: i32) { }`
fn one_param_inline() -> Vec<Token> {
    vec![
        id("for"),
        open(Delim::Bracket),
        id("x"),               // 2
        close(Delim::Bracket),
        id("test"),
        id("fn"),
        id("g"),
        open(Delim::Paren),
        id("a"),
        punct(':'),
        id("i32"),
        close(Delim::Paren),
        open(Delim::Brace),
        close(Delim::Brace),
    ]
}

#[test]
fn passes_bare_entry_through_to_one_param_target() {
    let e = expand(one_param_inline());
    assert!(e.diags.is_empty());
    assert_eq!(e.items.len(), 2);
    match &e.items[1] {
        Item::Test(t) => {
            assert_eq!(t.name, "g#0");
            assert_eq!(t.args, vec![sp(2, 3)]);
            assert_eq!(t.expected, None);
            assert!(t.markers.is_test);
            assert!(!t.markers.should_panic);
        }
        _ => panic!("expected a generated test"),
    }
}

/// `for [ x ] test fn h(a: i32, b: i32) { }`: bare entry, arity two.
#[test]
fn bare_entry_against_arity_two_fails_with_span() {
    let tts = vec![
        id("for"),
        open(Delim::Bracket),
        id("x"),               // 2
        close(Delim::Bracket),
        id("test"),
        id("fn"),
        id("h"),
        open(Delim::Paren),
        id("a"),
        punct(':'),
        id("i32"),
        Token::Comma,
        id("b"),
        punct(':'),
        id("i32"),
        close(Delim::Paren),
        open(Delim::Brace),
        close(Delim::Brace),
    ];
    let e = expand(tts);
    assert!(e.items.is_empty());
    assert_eq!(e.diags.len(), 1);
    assert_eq!(e.diags[0].kind, DiagKind::ExpectedTupleLiteral);
    assert_eq!(e.diags[0].level, Level::Error);
    assert_eq!(e.diags[0].span, sp(2, 3));
}

#[test]
fn failing_invocation_leaves_others_unaffected() {
    let bad = vec![
        id("for"),
        open(Delim::Bracket),
        id("x"),
        close(Delim::Bracket),
        id("test"),
        id("fn"),
        id("h"),
        open(Delim::Paren),
        id("a"),
        Token::Comma,
        id("b"),
        close(Delim::Paren),
        open(Delim::Brace),
        close(Delim::Brace),
    ];
    let mut names = NameCx { names: Vec::new() };
    let results = expand_all(&vec![bad, one_param_inline()], &mut names);
    assert_eq!(results.len(), 2);
    assert!(results[0].items.is_empty());
    assert_eq!(results[0].diags.len(), 1);
    assert_eq!(results[0].diags[0].kind, DiagKind::ExpectedTupleLiteral);
    // The second invocation expands exactly as it does alone.
    let alone = expand(one_param_inline());
    assert_eq!(results[1].items.len(), alone.items.len());
    match (&results[1].items[1], &alone.items[1]) {
        (Item::Test(a), Item::Test(b)) => {
            assert_eq!(a.name, b.name);
            assert_eq!(a.args, b.args);
        }
        _ => panic!("expected generated tests"),
    }
    assert_eq!(names.names, vec!["g#0".to_string()]);
}

/// `for [ 1, 2 ] test ! fn bar(a: i32) { }`
#[test]
fn panic_marker_marks_every_generated_test() {
    let tts = vec![
        id("for"),
        open(Delim::Bracket),
        lit("1"),              // 2
        Token::Comma,
        lit("2"),              // 4
        close(Delim::Bracket),
        id("test"),
        Token::Bang,
        id("fn"),
        id("bar"),
        open(Delim::Paren),
        id("a"),
        punct(':'),
        id("i32"),
        close(Delim::Paren),
        open(Delim::Brace),
        close(Delim::Brace),
    ];
    let e = expand(tts);
    assert!(e.diags.is_empty());
    assert_eq!(e.items.len(), 3);
    for (k, item) in e.items.iter().skip(1).enumerate() {
        match item {
            Item::Test(t) => {
                assert_eq!(t.name, format!("bar#{}", k));
                assert!(t.markers.is_test);
                assert!(t.markers.should_panic);
            }
            _ => panic!("expected a generated test"),
        }
    }
}

/// `for [ ] test fn foo(a: i32) { }`
#[test]
fn empty_parameter_list_warns_and_still_emits_target() {
    let tts = vec![
        id("for"),
        open(Delim::Bracket),  // 1
        close(Delim::Bracket), // 2
        id("test"),            // 3
        id("fn"),              // 4
        id("foo"),
        open(Delim::Paren),
        id("a"),
        punct(':'),
        id("i32"),
        close(Delim::Paren),
        open(Delim::Brace),
        close(Delim::Brace),   // 12
    ];
    let e = expand(tts);
    assert_eq!(e.items.len(), 1);
    match &e.items[0] {
        Item::Target { name, span } => {
            assert_eq!(name, "foo");
            assert_eq!(*span, sp(4, 13));
        }
        _ => panic!("expected the re-emitted target"),
    }
    assert_eq!(e.diags.len(), 1);
    assert_eq!(e.diags[0].level, Level::Warning);
    assert_eq!(e.diags[0].kind, DiagKind::EmptyParamList);
    assert_eq!(e.diags[0].span, sp(1, 3));
    assert_eq!(
        e.diags[0].message(),
        "empty parametrized tests are useless"
    );
}

/// `for [ (&[], 42) -> None, (&[42, 1337], 42) -> Some(0) ] test pos`
#[test]
fn end_to_end_external_reference_with_expected_values() {
    let tts = vec![
        id("for"),             // 0
        open(Delim::Bracket),  // 1
        open(Delim::Paren),    // 2
        punct('&'),            // 3
        open(Delim::Bracket),  // 4
        close(Delim::Bracket), // 5
        Token::Comma,          // 6
        lit("42"),             // 7
        close(Delim::Paren),   // 8
        Token::RArrow,         // 9
        id("None"),            // 10
        Token::Comma,          // 11
        open(Delim::Paren),    // 12
        punct('&'),            // 13
        open(Delim::Bracket),  // 14
        lit("42"),             // 15
        Token::Comma,          // 16
        lit("1337"),           // 17
        close(Delim::Bracket), // 18
        Token::Comma,          // 19
        lit("42"),             // 20
        close(Delim::Paren),   // 21
        Token::RArrow,         // 22
        id("Some"),            // 23
        open(Delim::Paren),    // 24
        lit("0"),              // 25
        close(Delim::Paren),   // 26
        close(Delim::Bracket), // 27
        id("test"),            // 28
        id("pos"),             // 29
    ];
    let e = expand(tts);
    assert!(e.diags.is_empty());
    assert_eq!(e.items.len(), 2);
    match &e.items[0] {
        Item::Test(t) => {
            assert_eq!(t.name, "pos#0");
            assert_eq!(t.callee, vec!["pos".to_string()]);
            assert_eq!(t.args, vec![sp(3, 6), sp(7, 8)]);
            assert_eq!(t.expected, Some(sp(9 + 1, 11)));
        }
        _ => panic!("expected a generated test"),
    }
    match &e.items[1] {
        Item::Test(t) => {
            assert_eq!(t.name, "pos#1");
            assert_eq!(t.args, vec![sp(13, 19), sp(20, 21)]);
            assert_eq!(t.expected, Some(sp(23, 27)));
        }
        _ => panic!("expected a generated test"),
    }
    // The two generated tests assert these equalities on the target's
    // real behavior, and both pass:
    fn pos(haystack: &[i32], needle: i32) -> Option<usize> {
        let mut i: usize = 1;
        for &x in haystack.iter() {
            if x == needle {
                return Some(i - 1);
            }
            i += 1;
        }
        None
    }
    assert_eq!(pos(&[], 42), None);
    assert_eq!(pos(&[42, 1337], 42), Some(0));
}

/// `for [ 'neg (1, 2) -> 3, (4, 5) -> 6, (7, 8) -> 9 ] test fn add2(a: i32, b: i32) -> i32 { a + b }`
#[test]
fn one_test_per_entry_with_distinct_names() {
    let tts = vec![
        id("for"),
        open(Delim::Bracket),
        lab("neg"),
        open(Delim::Paren),
        lit("1"),
        Token::Comma,
        lit("2"),
        close(Delim::Paren),
        Token::RArrow,
        lit("3"),
        Token::Comma,
        open(Delim::Paren),
        lit("4"),
        Token::Comma,
        lit("5"),
        close(Delim::Paren),
        Token::RArrow,
        lit("6"),
        Token::Comma,
        open(Delim::Paren),
        lit("7"),
        Token::Comma,
        lit("8"),
        close(Delim::Paren),
        Token::RArrow,
        lit("9"),
        close(Delim::Bracket),
        id("test"),
        id("fn"),
        id("add2"),
        open(Delim::Paren),
        id("a"),
        punct(':'),
        id("i32"),
        Token::Comma,
        id("b"),
        punct(':'),
        id("i32"),
        close(Delim::Paren),
        Token::RArrow,
        id("i32"),
        open(Delim::Brace),
        id("a"),
        punct('+'),
        id("b"),
        close(Delim::Brace),
    ];
    let e = expand(tts);
    assert!(e.diags.is_empty());
    assert_eq!(e.items.len(), 4);
    let mut names: Vec<String> = Vec::new();
    for item in e.items.iter().skip(1) {
        match item {
            Item::Test(t) => names.push(t.name.clone()),
            _ => panic!("expected a generated test"),
        }
    }
    assert_eq!(
        names,
        vec!["add2'neg".to_string(), "add2#1".to_string(), "add2#2".to_string()]
    );
    for i in 0..names.len() {
        assert_ne!(names[i], "add2");
        for j in (i + 1)..names.len() {
            assert_ne!(names[i], names[j]);
        }
    }
}

#[test]
fn tuple_element_count_must_match_declared_arity() {
    // `for [ (1, 2, 3) ] test fn f(a: i32, b: i32) { }`
    let tts = vec![
        id("for"),
        open(Delim::Bracket),
        open(Delim::Paren),    // 2
        lit("1"),
        Token::Comma,
        lit("2"),
        Token::Comma,
        lit("3"),
        close(Delim::Paren),   // 8
        close(Delim::Bracket),
        id("test"),
        id("fn"),
        id("f"),
        open(Delim::Paren),
        id("a"),
        punct(':'),
        id("i32"),
        Token::Comma,
        id("b"),
        punct(':'),
        id("i32"),
        close(Delim::Paren),
        open(Delim::Brace),
        close(Delim::Brace),
    ];
    let e = expand(tts);
    assert!(e.items.is_empty());
    assert_eq!(e.diags.len(), 1);
    assert_eq!(e.diags[0].kind, DiagKind::TupleArityMismatch);
    assert_eq!(e.diags[0].span, sp(2, 9));
}

#[test]
fn parenthesized_expression_is_no_tuple() {
    // `for [ (x) ] test pos`: unpacking is assumed for a path reference,
    // and `(x)` has no top-level comma, so it is not a tuple literal.
    let tts = vec![
        id("for"),
        open(Delim::Bracket),
        open(Delim::Paren),   // 2
        id("x"),
        close(Delim::Paren),  // 4
        close(Delim::Bracket),
        id("test"),
        id("pos"),
    ];
    let e = expand(tts);
    assert!(e.items.is_empty());
    assert_eq!(e.diags.len(), 1);
    assert_eq!(e.diags[0].kind, DiagKind::ExpectedTupleLiteral);
    assert_eq!(e.diags[0].span, sp(2, 5));
}

#[test]
fn single_element_tuple_unpacks_against_path_target() {
    // `for [ (x,) ] test pos`
    let tts = vec![
        id("for"),
        open(Delim::Bracket),
        open(Delim::Paren),   // 2
        id("x"),              // 3
        Token::Comma,         // 4
        close(Delim::Paren),  // 5
        close(Delim::Bracket),
        id("test"),
        id("pos"),
    ];
    let e = expand(tts);
    assert!(e.diags.is_empty());
    assert_eq!(e.items.len(), 1);
    match &e.items[0] {
        Item::Test(t) => {
            assert_eq!(t.args, vec![sp(3, 4)]);
        }
        _ => panic!("expected a generated test"),
    }
}

#[test]
fn panic_marker_works_with_path_target() {
    // `for [ (1,) ] test ! bar`
    let tts = vec![
        id("for"),
        open(Delim::Bracket),
        open(Delim::Paren),
        lit("1"),
        Token::Comma,
        close(Delim::Paren),
        close(Delim::Bracket),
        id("test"),
        Token::Bang,
        id("bar"),
    ];
    let e = expand(tts);
    assert!(e.diags.is_empty());
    assert_eq!(e.items.len(), 1);
    match &e.items[0] {
        Item::Test(t) => {
            assert_eq!(t.name, "bar#0");
            assert!(t.markers.should_panic);
        }
        _ => panic!("expected a generated test"),
    }
}

#[test]
fn path_target_keeps_all_segments_and_names_after_last() {
    // `for [ (1, 2) ] test std::cmp::max`
    let tts = vec![
        id("for"),
        open(Delim::Bracket),
        open(Delim::Paren),
        lit("1"),
        Token::Comma,
        lit("2"),
        close(Delim::Paren),
        close(Delim::Bracket),
        id("test"),
        id("std"),
        Token::PathSep,
        id("cmp"),
        Token::PathSep,
        id("max"),
    ];
    let e = expand(tts);
    assert!(e.diags.is_empty());
    assert_eq!(e.items.len(), 1);
    match &e.items[0] {
        Item::Test(t) => {
            assert_eq!(
                t.callee,
                vec!["std".to_string(), "cmp".to_string(), "max".to_string()]
            );
            assert_eq!(t.name, "max#0");
        }
        _ => panic!("expected a generated test"),
    }
}

#[test]
fn generics_commas_do_not_count_toward_arity() {
    // `for [ (1, 2) ] test fn f<T: Ord>(a: T, b: Vec<T, u8>) { }`
    let tts = vec![
        id("for"),
        open(Delim::Bracket),
        open(Delim::Paren),
        lit("1"),
        Token::Comma,
        lit("2"),
        close(Delim::Paren),
        close(Delim::Bracket),
        id("test"),
        id("fn"),
        id("f"),
        punct('<'),
        id("T"),
        punct(':'),
        id("Ord"),
        punct('>'),
        open(Delim::Paren),
        id("a"),
        punct(':'),
        id("T"),
        Token::Comma,
        id("b"),
        punct(':'),
        id("Vec"),
        punct('<'),
        id("T"),
        Token::Comma,
        id("u8"),
        punct('>'),
        close(Delim::Paren),
        open(Delim::Brace),
        close(Delim::Brace),
    ];
    let e = expand(tts);
    assert!(e.diags.is_empty(), "diags: {:?}", e.diags);
    assert_eq!(e.items.len(), 2);
}

#[test]
fn trailing_comma_in_entries_is_allowed() {
    // `for [ x, y, ] test fn g(a: i32) { }`
    let tts = vec![
        id("for"),
        open(Delim::Bracket),
        id("x"),
        Token::Comma,
        id("y"),
        Token::Comma,
        close(Delim::Bracket),
        id("test"),
        id("fn"),
        id("g"),
        open(Delim::Paren),
        id("a"),
        punct(':'),
        id("i32"),
        close(Delim::Paren),
        open(Delim::Brace),
        close(Delim::Brace),
    ];
    let e = expand(tts);
    assert!(e.diags.is_empty());
    assert_eq!(e.items.len(), 3);
}

#[test]
fn interning_returns_first_position_and_never_rewrites() {
    let mut cx = NameCx::new();
    assert_eq!(cx.intern("a".to_string()), 0);
    assert_eq!(cx.intern("b".to_string()), 1);
    assert_eq!(cx.intern("a".to_string()), 0);
    assert_eq!(cx.names, vec!["a".to_string(), "b".to_string()]);
}

#[test]
fn name_rendering_uses_hash_for_index_and_quote_for_label() {
    assert_eq!(test_name("foo", &None, 0), "foo#0");
    assert_eq!(test_name("foo", &None, 12), "foo#12");
    assert_eq!(test_name("foo", &None, 105), "foo#105");
    assert_eq!(test_name("foo", &Some("bar".to_string()), 7), "foo'bar");
}

#[test]
fn grammar_errors_are_located() {
    // Not starting with `for`.
    let e = expand(vec![id("test")]);
    assert_eq!(e.diags[0].kind, DiagKind::ExpectedFor);
    assert_eq!(e.diags[0].span, sp(0, 1));
    assert!(e.items.is_empty());

    // No bracketed list after `for`.
    let e = expand(vec![id("for"), id("x")]);
    assert_eq!(e.diags[0].kind, DiagKind::ExpectedParamList);
    assert_eq!(e.diags[0].span, sp(1, 2));

    // `test` missing after the list.
    let e = expand(vec![
        id("for"),
        open(Delim::Bracket),
        lit("1"),
        close(Delim::Bracket),
        id("foo"),
    ]);
    assert_eq!(e.diags[0].kind, DiagKind::ExpectedTest);
    assert_eq!(e.diags[0].span, sp(4, 5));

    // An entry must start with an expression.
    let e = expand(vec![
        id("for"),
        open(Delim::Bracket),
        Token::Comma,
        close(Delim::Bracket),
        id("test"),
        id("pos"),
    ]);
    assert_eq!(e.diags[0].kind, DiagKind::ExpectedExpression);
    assert_eq!(e.diags[0].span, sp(2, 3));

    // An arrow must be followed by the expected value.
    let e = expand(vec![
        id("for"),
        open(Delim::Bracket),
        lit("1"),
        Token::RArrow,
        close(Delim::Bracket),
        id("test"),
        id("pos"),
    ]);
    assert_eq!(e.diags[0].kind, DiagKind::ExpectedExpression);
    assert_eq!(e.diags[0].span, sp(4, 5));

    // Two arrows in one entry.
    let e = expand(vec![
        id("for"),
        open(Delim::Bracket),
        lit("1"),
        Token::RArrow,
        lit("2"),
        Token::RArrow,
        lit("3"),
        close(Delim::Bracket),
        id("test"),
        id("pos"),
    ]);
    assert_eq!(e.diags[0].kind, DiagKind::ExpectedCommaOrBracket);
    assert_eq!(e.diags[0].span, sp(5, 6));

    // Tokens after the target.
    let e = expand(vec![
        id("for"),
        open(Delim::Bracket),
        open(Delim::Paren),
        lit("1"),
        Token::Comma,
        lit("2"),
        close(Delim::Paren),
        close(Delim::Bracket),
        id("test"),
        id("pos"),
        Token::Bang,
    ]);
    assert_eq!(e.diags[0].kind, DiagKind::ExpectedEndOfMacro);
    assert_eq!(e.diags[0].span, sp(10, 11));
}

#[test]
fn delimiter_errors_are_located() {
    // The list's bracket is closed by a parenthesis.
    let e = expand(vec![
        id("for"),
        open(Delim::Bracket),
        lit("1"),
        close(Delim::Paren),
    ]);
    assert_eq!(e.diags[0].kind, DiagKind::MismatchedDelim);
    assert_eq!(e.diags[0].span, sp(3, 4));

    // The list's bracket is never closed.
    let e = expand(vec![id("for"), open(Delim::Bracket), lit("1")]);
    assert_eq!(e.diags[0].kind, DiagKind::UnclosedDelim);
    assert_eq!(e.diags[0].span, sp(1, 2));
}

#[test]
fn inline_target_errors_are_located() {
    // Two identifiers after `test` announce a declaration, which must
    // start with `fn`.
    let e = expand(vec![
        id("for"),
        open(Delim::Bracket),
        lit("1"),
        close(Delim::Bracket),
        id("test"),
        id("x"),
        id("y"),
    ]);
    assert_eq!(e.diags[0].kind, DiagKind::ExpectedFn);
    assert_eq!(e.diags[0].span, sp(5, 6));

    // `fn f` without a parameter list.
    let e = expand(vec![
        id("for"),
        open(Delim::Bracket),
        lit("1"),
        close(Delim::Bracket),
        id("test"),
        id("fn"),
        id("f"),
        open(Delim::Brace),
        close(Delim::Brace),
    ]);
    assert_eq!(e.diags[0].kind, DiagKind::ExpectedFnParams);
    assert_eq!(e.diags[0].span, sp(7, 8));

    // `fn f()` without a body.
    let e = expand(vec![
        id("for"),
        open(Delim::Bracket),
        lit("1"),
        close(Delim::Bracket),
        id("test"),
        id("fn"),
        id("f"),
        open(Delim::Paren),
        close(Delim::Paren),
    ]);
    assert_eq!(e.diags[0].kind, DiagKind::ExpectedFnBody);

    // An unclosed generic parameter list.
    let e = expand(vec![
        id("for"),
        open(Delim::Bracket),
        lit("1"),
        close(Delim::Bracket),
        id("test"),
        id("fn"),
        id("f"),
        punct('<'),
        id("T"),
        open(Delim::Paren),
        close(Delim::Paren),
        open(Delim::Brace),
        close(Delim::Brace),
    ]);
    assert_eq!(e.diags[0].kind, DiagKind::UnclosedGenerics);
    assert_eq!(e.diags[0].span, sp(7, 8));

    // A path that ends on `::`.
    let e = expand(vec![
        id("for"),
        open(Delim::Bracket),
        lit("1"),
        close(Delim::Bracket),
        id("test"),
        id("foo"),
        Token::PathSep,
    ]);
    assert_eq!(e.diags[0].kind, DiagKind::ExpectedPathSegment);
    assert_eq!(e.diags[0].span, sp(7, 8));
}

#[test]
fn declaration_without_name_is_reported() {
    // Reachable through the parser directly: the dispatcher only chooses
    // the declaration form when an identifier follows.
    let s = vec![id("fn")];
    match parse_fn_decl(&s, 0) {
        Err(d) => assert_eq!(d.kind, DiagKind::ExpectedFnName),
        Ok(_) => panic!("expected a diagnostic"),
    }
}

#[test]
fn parser_yields_structured_request() {
    let s = two_param_inline();
    let req = parse_plague(&s).expect("parses");
    assert_eq!(req.params.len(), 1);
    assert_eq!(req.params[0].label, None);
    assert_eq!(req.params[0].arg, sp(2, 7));
    assert_eq!(req.params[0].expected, Some(sp(8, 9)));
    assert_eq!(req.params_span, sp(1, 10));
    assert!(!req.should_panic);
    match &req.target {
        FnKind::Decl { name, arity, span } => {
            assert_eq!(name, "f");
            assert_eq!(*arity, 2);
            assert_eq!(*span, sp(11, 29));
        }
        _ => panic!("expected an inline declaration"),
    }
}
