//! What holds of the combinators on every request.
//!
//! Each law speaks of the matcher that a constructor returns: the one whose
//! submatchers are the given ones.

use crate::conjunction::AndMatcher;
use crate::disjunction::OrMatcher;
use crate::exclusive::XorMatcher;
use crate::matcher::Matcher;
use crate::negation::NotMatcher;
use vstd::prelude::*;
use wiremock::Request;

verus! {

/// The conjunction of `left` and `right` accepts a request exactly when both
/// of them accept it.
pub proof fn and_accepts_both<L: Matcher, R: Matcher>(
    left: L,
    right: R,
    matcher: AndMatcher<L, R>,
    request: &Request,
)
    requires
        matcher.left() == left,
        matcher.right() == right,
    ensures
        matcher.accepts(request) == (left.accepts(request) && right.accepts(request)),
{
}

/// The disjunction of `left` and `right` accepts a request exactly when one of
/// them, or both, accept it.
pub proof fn or_accepts_either<L: Matcher, R: Matcher>(
    left: L,
    right: R,
    matcher: OrMatcher<L, R>,
    request: &Request,
)
    requires
        matcher.left() == left,
        matcher.right() == right,
    ensures
        matcher.accepts(request) == (left.accepts(request) || right.accepts(request)),
{
}

/// The exclusive disjunction of `left` and `right` accepts a request exactly
/// when their verdicts on it differ.
pub proof fn xor_accepts_exactly_one<L: Matcher, R: Matcher>(
    left: L,
    right: R,
    matcher: XorMatcher<L, R>,
    request: &Request,
)
    requires
        matcher.left() == left,
        matcher.right() == right,
    ensures
        matcher.accepts(request) == (left.accepts(request) != right.accepts(request)),
{
}

/// The negation of `inner` accepts a request exactly when `inner` does not.
pub proof fn not_accepts_opposite<M: Matcher>(inner: M, matcher: NotMatcher<M>, request: &Request)
    requires
        matcher.inner() == inner,
    ensures
        matcher.accepts(request) == !inner.accepts(request),
{
}

/// A conjunction whose first submatcher rejects a request can be evaluated on
/// it, and rejects it, whatever the second submatcher is: also one that
/// cannot be evaluated on that request.
pub proof fn and_rejects_without_right<L: Matcher, R: Matcher>(
    left: L,
    right: R,
    matcher: AndMatcher<L, R>,
    request: &Request,
)
    requires
        matcher.left() == left,
        matcher.right() == right,
        left.evaluable(request),
        !left.accepts(request),
    ensures
        matcher.evaluable(request),
        !matcher.accepts(request),
{
}

/// A disjunction whose first submatcher accepts a request can be evaluated on
/// it, and accepts it, whatever the second submatcher is: also one that
/// cannot be evaluated on that request.
pub proof fn or_accepts_without_right<L: Matcher, R: Matcher>(
    left: L,
    right: R,
    matcher: OrMatcher<L, R>,
    request: &Request,
)
    requires
        matcher.left() == left,
        matcher.right() == right,
        left.evaluable(request),
        left.accepts(request),
    ensures
        matcher.evaluable(request),
        matcher.accepts(request),
{
}

/// A conjunction whose first submatcher accepts a request needs its second
/// submatcher: it can be evaluated exactly when the second one can.
pub proof fn and_needs_right_after_accept<L: Matcher, R: Matcher>(
    left: L,
    right: R,
    matcher: AndMatcher<L, R>,
    request: &Request,
)
    requires
        matcher.left() == left,
        matcher.right() == right,
        left.evaluable(request),
        left.accepts(request),
    ensures
        matcher.evaluable(request) == right.evaluable(request),
        matcher.accepts(request) == right.accepts(request),
{
}

/// A disjunction whose first submatcher rejects a request needs its second
/// submatcher: it can be evaluated exactly when the second one can.
pub proof fn or_needs_right_after_reject<L: Matcher, R: Matcher>(
    left: L,
    right: R,
    matcher: OrMatcher<L, R>,
    request: &Request,
)
    requires
        matcher.left() == left,
        matcher.right() == right,
        left.evaluable(request),
        !left.accepts(request),
    ensures
        matcher.evaluable(request) == right.evaluable(request),
        matcher.accepts(request) == right.accepts(request),
{
}

/// An exclusive disjunction has no short cut: it can be evaluated on a
/// request exactly when both submatchers can, whatever their verdicts are.
pub proof fn xor_needs_both<L: Matcher, R: Matcher>(
    left: L,
    right: R,
    matcher: XorMatcher<L, R>,
    request: &Request,
)
    requires
        matcher.left() == left,
        matcher.right() == right,
    ensures
        matcher.evaluable(request) == (left.evaluable(request) && right.evaluable(request)),
{
}

/// The verdict of the first submatcher never settles an exclusive
/// disjunction: two of them with the same first submatcher, whose second
/// submatchers disagree on a request, disagree on it.
pub proof fn xor_depends_on_right<L: Matcher, R: Matcher>(
    matcher: XorMatcher<L, R>,
    other: XorMatcher<L, R>,
    request: &Request,
)
    requires
        matcher.left() == other.left(),
        matcher.right().accepts(request) != other.right().accepts(request),
    ensures
        matcher.accepts(request) != other.accepts(request),
{
}

/// The verdict of the second submatcher never settles an exclusive
/// disjunction: two of them with the same second submatcher, whose first
/// submatchers disagree on a request, disagree on it.
pub proof fn xor_depends_on_left<L: Matcher, R: Matcher>(
    matcher: XorMatcher<L, R>,
    other: XorMatcher<L, R>,
    request: &Request,
)
    requires
        matcher.right() == other.right(),
        matcher.left().accepts(request) != other.left().accepts(request),
    ensures
        matcher.accepts(request) != other.accepts(request),
{
}

/// A negation can be evaluated on a request exactly when its submatcher can.
pub proof fn not_needs_inner<M: Matcher>(inner: M, matcher: NotMatcher<M>, request: &Request)
    requires
        matcher.inner() == inner,
    ensures
        matcher.evaluable(request) == inner.evaluable(request),
{
}

/// Combinators nest: the disjunction of the conjunction of `a` and `b` with
/// `c` accepts a request exactly when `a` and `b` both accept it or `c` does.
/// It can be evaluated exactly when `a` can, `b` can if `a` accepts, and `c`
/// can unless `a` and `b` both accept.
pub proof fn or_of_and_accepts<A: Matcher, B: Matcher, C: Matcher>(
    a: A,
    b: B,
    c: C,
    matcher: OrMatcher<AndMatcher<A, B>, C>,
    request: &Request,
)
    requires
        matcher.left().left() == a,
        matcher.left().right() == b,
        matcher.right() == c,
    ensures
        matcher.accepts(request)
            == ((a.accepts(request) && b.accepts(request)) || c.accepts(request)),
        matcher.evaluable(request) == (a.evaluable(request)
            && (a.accepts(request) ==> b.evaluable(request))
            && (!(a.accepts(request) && b.accepts(request)) ==> c.evaluable(request))),
{
}

} // verus!
