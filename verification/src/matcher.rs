//! The matching capability that every combinator consumes and provides.

use vstd::prelude::*;
use wiremock::Request;

verus! {

/// `wiremock::Request`, the incoming request that a mock server hands to its
/// matchers. The combinators only pass a request on to their submatchers, so
/// nothing is claimed about its contents.
#[verifier::external_type_specification]
#[verifier::external_body]
pub struct ExRequest(Request);

/// A predicate over incoming requests.
///
/// A matcher is fixed once it is built: it keeps nothing from one call to the
/// next, so its verdict on a request is a function of the matcher and the
/// request alone. [`accepts`](Matcher::accepts) is that function.
///
/// Evaluating a matcher may fail on some requests.
/// [`evaluable`](Matcher::evaluable) tells the requests on which it does not,
/// and [`matches`](Matcher::matches) asks for one of those. A combinator
/// therefore has to say which of its submatchers it calls on which request:
/// it may call a submatcher only where its own `evaluable` makes sure that the
/// submatcher's holds.
pub trait Matcher {
    /// Whether evaluating this matcher on `request` runs to completion and
    /// yields a verdict.
    spec fn evaluable(&self, request: &Request) -> bool;

    /// The verdict of this matcher on `request`.
    spec fn accepts(&self, request: &Request) -> bool;

    /// Evaluates this matcher on `request`.
    fn matches(&self, request: &Request) -> (accepted: bool)
        requires
            self.evaluable(request),
        ensures
            accepted == self.accepts(request),
    ;
}

} // verus!
