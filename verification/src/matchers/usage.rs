//! Matchers over a node's use-list length.

use vstd::prelude::*;

use crate::ir::IrNode;
use crate::matchers::InstMatcher;

verus! {

/// Matches when the inner matcher matches the node and the node's use-list
/// length equals the count exactly: zero for an unused node, one for a node
/// with a single use.
pub struct UsageInstMatcher {
    pub matcher: Box<InstMatcher>,
    pub count: usize,
}

impl UsageInstMatcher {
    pub open spec fn spec_match(self, n: IrNode) -> bool
        decreases self,
    {
        self.matcher.spec_match(n) && n.use_count == self.count
    }

    pub fn is_match(&self, node: &IrNode) -> (r: bool)
        ensures
            r == self.spec_match(*node),
        decreases self,
    {
        if !self.matcher.is_match(node) {
            return false;
        }
        node.use_count == self.count
    }

    /// The node must be unused.
    pub fn create_unused_matcher(matcher: InstMatcher) -> (r: InstMatcher)
        ensures
            r matches InstMatcher::Usage(m) && *m.matcher == matcher && m.count == 0,
    {
        InstMatcher::Usage(UsageInstMatcher { matcher: Box::new(matcher), count: 0 })
    }

    /// The node must have exactly one use.
    pub fn create_has_one_use_matcher(matcher: InstMatcher) -> (r: InstMatcher)
        ensures
            r matches InstMatcher::Usage(m) && *m.matcher == matcher && m.count == 1,
    {
        InstMatcher::Usage(UsageInstMatcher { matcher: Box::new(matcher), count: 1 })
    }

    /// The node must have exactly `n` uses.
    pub fn create_has_n_uses_matcher(matcher: InstMatcher, n: usize) -> (r: InstMatcher)
        ensures
            r matches InstMatcher::Usage(m) && *m.matcher == matcher && m.count == n,
    {
        InstMatcher::Usage(UsageInstMatcher { matcher: Box::new(matcher), count: n })
    }
}

} // verus!
