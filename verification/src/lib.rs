//! A compile-time expander for table-driven parametrized tests.
//!
//! An invocation of the form `for [ entries ] test [!] target` is turned into
//! one uniquely named test item per parameter entry, each of which calls the
//! target function with that entry's arguments and, when the entry carries an
//! expected value, checks the result against it.  The token stream of an
//! invocation is modelled by [`token::Token`]; the host compiler's own lexing
//! and emission plumbing stay outside this crate.
//!
//! The target is either declared inline — its arity is then read off its
//! signature and every entry is checked against it — or referenced by path.
//! A referenced function's signature is not visible to the expander, so its
//! arity is unknown; the policy here is to treat every such target as
//! multi-parameter: each entry against it must be a tuple literal, whose
//! elements become the call's positional arguments (a one-argument entry is
//! written `(x,)`).
//!
//! [`expand::plague_macro`] expands one invocation; [`expand::expand_all`]
//! expands a compilation unit's worth of them, each in isolation.

pub mod ast;
pub mod diag;
pub mod expand;
pub mod names;
pub mod parse;
pub mod scan;
pub mod token;
