//! Logical negation of a matcher.

use crate::matcher::Matcher;
use vstd::prelude::*;
use wiremock::Request;

verus! {

/// Match a request if the submatcher does not accept it.
#[derive(Debug)]
pub struct NotMatcher<M>(M) where M: Matcher;

impl<M> NotMatcher<M> where M: Matcher {
    /// The submatcher.
    pub closed spec fn inner(&self) -> M {
        self.0
    }

    /// Creates a new `NOT` matcher with the given submatcher.
    pub fn new(matcher: M) -> (negated: Self)
        ensures
            negated.inner() == matcher,
    {
        NotMatcher(matcher)
    }
}

impl<M> Matcher for NotMatcher<M> where M: Matcher {
    /// The submatcher is evaluated on every request.
    open spec fn evaluable(&self, request: &Request) -> bool {
        self.inner().evaluable(request)
    }

    open spec fn accepts(&self, request: &Request) -> bool {
        !self.inner().accepts(request)
    }

    fn matches(&self, request: &Request) -> (accepted: bool)
        ensures
            accepted == !self.inner().accepts(request),
    {
        !self.0.matches(request)
    }
}

} // verus!
