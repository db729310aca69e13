//! Logical conjunction of two matchers.

use crate::matcher::Matcher;
use vstd::prelude::*;
use wiremock::Request;

verus! {

/// Match a request if both submatchers accept it.
///
/// This matcher is short-circuiting: if the first submatcher does not accept
/// the request, the second submatcher is not called.
#[derive(Debug)]
pub struct AndMatcher<L, R>(L, R) where L: Matcher, R: Matcher;

impl<L, R> AndMatcher<L, R> where L: Matcher, R: Matcher {
    /// The first submatcher.
    pub closed spec fn left(&self) -> L {
        self.0
    }

    /// The second submatcher.
    pub closed spec fn right(&self) -> R {
        self.1
    }

    /// Creates a new `AND` matcher with the two given submatchers.
    ///
    /// `right_matcher` is called only if `left_matcher` accepts the request.
    pub fn new(left_matcher: L, right_matcher: R) -> (matcher: Self)
        ensures
            matcher.left() == left_matcher,
            matcher.right() == right_matcher,
    {
        AndMatcher(left_matcher, right_matcher)
    }
}

impl<L, R> Matcher for AndMatcher<L, R> where L: Matcher, R: Matcher {
    /// The first submatcher is always evaluated, the second one only on the
    /// requests that the first accepts.
    open spec fn evaluable(&self, request: &Request) -> bool {
        &&& self.left().evaluable(request)
        &&& self.left().accepts(request) ==> self.right().evaluable(request)
    }

    open spec fn accepts(&self, request: &Request) -> bool {
        self.left().accepts(request) && self.right().accepts(request)
    }

    fn matches(&self, request: &Request) -> (accepted: bool)
        ensures
            accepted == (self.left().accepts(request) && self.right().accepts(request)),
    {
        self.0.matches(request) && self.1.matches(request)
    }
}

} // verus!
