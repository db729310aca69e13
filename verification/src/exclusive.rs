//! Exclusive disjunction of two matchers.

use crate::matcher::Matcher;
use vstd::prelude::*;
use wiremock::Request;

verus! {

/// Match a request if exactly one submatcher accepts it.
///
/// The verdict needs both submatchers, so both are called on every request,
/// the first one before the second.
#[derive(Debug)]
pub struct XorMatcher<L, R>(L, R) where L: Matcher, R: Matcher;

impl<L, R> XorMatcher<L, R> where L: Matcher, R: Matcher {
    /// The first submatcher.
    pub closed spec fn left(&self) -> L {
        self.0
    }

    /// The second submatcher.
    pub closed spec fn right(&self) -> R {
        self.1
    }

    /// Creates a new `XOR` (exclusive `OR`) matcher with the two given
    /// submatchers.
    pub fn new(left_matcher: L, right_matcher: R) -> (matcher: Self)
        ensures
            matcher.left() == left_matcher,
            matcher.right() == right_matcher,
    {
        XorMatcher(left_matcher, right_matcher)
    }
}

impl<L, R> Matcher for XorMatcher<L, R> where L: Matcher, R: Matcher {
    /// Both submatchers are evaluated, whatever the first one answers.
    open spec fn evaluable(&self, request: &Request) -> bool {
        self.left().evaluable(request) && self.right().evaluable(request)
    }

    open spec fn accepts(&self, request: &Request) -> bool {
        self.left().accepts(request) != self.right().accepts(request)
    }

    fn matches(&self, request: &Request) -> (accepted: bool)
        ensures
            accepted == (self.left().accepts(request) != self.right().accepts(request)),
    {
        self.0.matches(request) != self.1.matches(request)
    }
}

} // verus!
