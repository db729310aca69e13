//! Request matchers that implement logical operators.
//!
//! A [`Matcher`] decides whether an incoming `wiremock::Request` is accepted.
//! The four combinators of this crate build a matcher out of one or two
//! others:
//!
//! - [`and`] accepts a request if both submatchers accept it,
//! - [`or`] accepts a request if either submatcher accepts it,
//! - [`xor`] accepts a request if exactly one submatcher accepts it,
//! - [`not`] accepts a request if its submatcher does not.
//!
//! A combinator is a matcher itself, so expressions nest:
//!
//! ```text
//! or(and(has_testing_header, is_first_page), has_bypass_header)
//! ```
//!
//! `and` and `or` are short-circuiting: they call their second submatcher only
//! where the first one has not settled the verdict. The contracts show this in
//! [`Matcher::evaluable`]: a conjunction can be evaluated on a request that its
//! first submatcher rejects even if its second submatcher cannot.
//!
//! A combinator has a `Debug` representation if and only if all its
//! submatchers have one.
//!
//! The module [`laws`] states what holds of the combinators on every request.

use vstd::prelude::*;

pub mod conjunction;
pub mod disjunction;
pub mod exclusive;
pub mod laws;
pub mod matcher;
pub mod negation;

pub use crate::conjunction::AndMatcher;
pub use crate::disjunction::OrMatcher;
pub use crate::exclusive::XorMatcher;
pub use crate::matcher::Matcher;
pub use crate::negation::NotMatcher;

verus! {

/// Shorthand for [`AndMatcher::new`].
pub fn and<L, R>(left_matcher: L, right_matcher: R) -> (matcher: AndMatcher<L, R>) where
    L: Matcher,
    R: Matcher,

    ensures
        matcher.left() == left_matcher,
        matcher.right() == right_matcher,
{
    AndMatcher::new(left_matcher, right_matcher)
}

/// Shorthand for [`OrMatcher::new`].
pub fn or<L, R>(left_matcher: L, right_matcher: R) -> (matcher: OrMatcher<L, R>) where
    L: Matcher,
    R: Matcher,

    ensures
        matcher.left() == left_matcher,
        matcher.right() == right_matcher,
{
    OrMatcher::new(left_matcher, right_matcher)
}

/// Shorthand for [`XorMatcher::new`].
pub fn xor<L, R>(left_matcher: L, right_matcher: R) -> (matcher: XorMatcher<L, R>) where
    L: Matcher,
    R: Matcher,

    ensures
        matcher.left() == left_matcher,
        matcher.right() == right_matcher,
{
    XorMatcher::new(left_matcher, right_matcher)
}

/// Shorthand for [`NotMatcher::new`].
pub fn not<M>(matcher: M) -> (negated: NotMatcher<M>) where M: Matcher
    ensures
        negated.inner() == matcher,
{
    NotMatcher::new(matcher)
}

} // verus!
