use std::fmt::Debug;
use wiremock::Request;
use wiremock_logical_matchers::{AndMatcher, Matcher, NotMatcher, OrMatcher, XorMatcher};

// Method lookup tries `DoesImplementDebug` first, which takes the wrapper by
// reference, and falls back to `DoesNotImplementDebug`, which takes a
// reference to that reference, only where the matcher has no `Debug`.

struct DebugTest<M: Matcher>(M);

trait DoesImplementDebug {
    fn debug_if_possible(&self) -> String;
}

impl<M: Matcher + Debug> DoesImplementDebug for DebugTest<M> {
    fn debug_if_possible(&self) -> String {
        format!("{:?}", self.0)
    }
}

trait DoesNotImplementDebug {
    fn debug_if_possible(&self) -> String;
}

impl<M: Matcher> DoesNotImplementDebug for &DebugTest<M> {
    fn debug_if_possible(&self) -> String {
        "".to_string()
    }
}

struct NotDebugMatcher(#[allow(dead_code)] usize);

impl Matcher for NotDebugMatcher {
    fn evaluable(&self, _request: &Request) -> bool {
        true
    }

    fn accepts(&self, _request: &Request) -> bool {
        false
    }

    fn matches(&self, _request: &Request) -> bool {
        false
    }
}

#[derive(Debug)]
struct DebugMatcher(#[allow(dead_code)] usize);

impl Matcher for DebugMatcher {
    fn evaluable(&self, _request: &Request) -> bool {
        true
    }

    fn accepts(&self, _request: &Request) -> bool {
        false
    }

    fn matches(&self, _request: &Request) -> bool {
        false
    }
}

#[test]
fn and_matcher_test_both_debug() {
    let both_debug = AndMatcher::new(DebugMatcher(42), DebugMatcher(23));
    let debug_test = DebugTest(both_debug);
    let actual = (&debug_test).debug_if_possible();
    assert_eq!(actual.is_empty(), false);
    assert_eq!(actual, "AndMatcher(DebugMatcher(42), DebugMatcher(23))");
}

#[test]
fn and_matcher_test_left_debug() {
    let left_debug = AndMatcher::new(DebugMatcher(42), NotDebugMatcher(23));
    let debug_test = DebugTest(left_debug);
    let actual = (&debug_test).debug_if_possible();
    assert_eq!(actual.is_empty(), true);
}

#[test]
fn and_matcher_test_right_debug() {
    let right_debug = AndMatcher::new(NotDebugMatcher(42), DebugMatcher(23));
    let debug_test = DebugTest(right_debug);
    let actual = (&debug_test).debug_if_possible();
    assert_eq!(actual.is_empty(), true);
}

#[test]
fn and_matcher_test_no_debug() {
    let no_debug = AndMatcher::new(NotDebugMatcher(42), NotDebugMatcher(23));
    let debug_test = DebugTest(no_debug);
    let actual = (&debug_test).debug_if_possible();
    assert_eq!(actual.is_empty(), true);
}

#[test]
fn or_matcher_test_both_debug() {
    let both_debug = OrMatcher::new(DebugMatcher(42), DebugMatcher(23));
    let debug_test = DebugTest(both_debug);
    let actual = (&debug_test).debug_if_possible();
    assert_eq!(actual.is_empty(), false);
    assert_eq!(actual, "OrMatcher(DebugMatcher(42), DebugMatcher(23))");
}

#[test]
fn or_matcher_test_left_debug() {
    let left_debug = OrMatcher::new(DebugMatcher(42), NotDebugMatcher(23));
    let debug_test = DebugTest(left_debug);
    let actual = (&debug_test).debug_if_possible();
    assert_eq!(actual.is_empty(), true);
}

#[test]
fn or_matcher_test_right_debug() {
    let right_debug = OrMatcher::new(NotDebugMatcher(42), DebugMatcher(23));
    let debug_test = DebugTest(right_debug);
    let actual = (&debug_test).debug_if_possible();
    assert_eq!(actual.is_empty(), true);
}

#[test]
fn or_matcher_test_no_debug() {
    let no_debug = OrMatcher::new(NotDebugMatcher(42), NotDebugMatcher(23));
    let debug_test = DebugTest(no_debug);
    let actual = (&debug_test).debug_if_possible();
    assert_eq!(actual.is_empty(), true);
}

#[test]
fn xor_matcher_test_both_debug() {
    let both_debug = XorMatcher::new(DebugMatcher(42), DebugMatcher(23));
    let debug_test = DebugTest(both_debug);
    let actual = (&debug_test).debug_if_possible();
    assert_eq!(actual.is_empty(), false);
    assert_eq!(actual, "XorMatcher(DebugMatcher(42), DebugMatcher(23))");
}

#[test]
fn xor_matcher_test_left_debug() {
    let left_debug = XorMatcher::new(DebugMatcher(42), NotDebugMatcher(23));
    let debug_test = DebugTest(left_debug);
    let actual = (&debug_test).debug_if_possible();
    assert_eq!(actual.is_empty(), true);
}

#[test]
fn xor_matcher_test_right_debug() {
    let right_debug = XorMatcher::new(NotDebugMatcher(42), DebugMatcher(23));
    let debug_test = DebugTest(right_debug);
    let actual = (&debug_test).debug_if_possible();
    assert_eq!(actual.is_empty(), true);
}

#[test]
fn xor_matcher_test_no_debug() {
    let no_debug = XorMatcher::new(NotDebugMatcher(42), NotDebugMatcher(23));
    let debug_test = DebugTest(no_debug);
    let actual = (&debug_test).debug_if_possible();
    assert_eq!(actual.is_empty(), true);
}

#[test]
fn not_matcher_test_with_debug() {
    let with_debug = NotMatcher::new(DebugMatcher(42));
    let debug_test = DebugTest(with_debug);
    let actual = (&debug_test).debug_if_possible();
    assert_eq!(actual.is_empty(), false);
    assert_eq!(actual, "NotMatcher(DebugMatcher(42))");
}

#[test]
fn not_matcher_test_without_debug() {
    let without_debug = NotMatcher::new(NotDebugMatcher(23));
    let debug_test = DebugTest(without_debug);
    let actual = (&debug_test).debug_if_possible();
    assert_eq!(actual.is_empty(), true);
}

#[test]
fn nested_matcher_test_debug() {
    let all_debug = OrMatcher::new(
        AndMatcher::new(DebugMatcher(1), DebugMatcher(2)),
        NotMatcher::new(DebugMatcher(3)),
    );
    let debug_test = DebugTest(all_debug);
    let actual = (&debug_test).debug_if_possible();
    assert_eq!(
        actual,
        "OrMatcher(AndMatcher(DebugMatcher(1), DebugMatcher(2)), NotMatcher(DebugMatcher(3)))"
    );

    let one_without = OrMatcher::new(
        AndMatcher::new(DebugMatcher(1), NotDebugMatcher(2)),
        NotMatcher::new(DebugMatcher(3)),
    );
    let debug_test = DebugTest(one_without);
    let actual = (&debug_test).debug_if_possible();
    assert_eq!(actual.is_empty(), true);
}
