//! Matchers for floating-point comparison instructions.

use vstd::prelude::*;

use crate::ir::FloatPredicate;
use crate::ir::IrNode;
use crate::ir::Opcode;
use crate::matchers::InstMatcher;

verus! {

/// Matches a floating-point comparison: the opcode must be `fcmp`, the
/// predicate must equal the target, and the operands must match the two
/// sub-matchers in order, or in swapped order when created commutatively.
pub struct FloatComparisonInstMatcher {
    pub lhs_matcher: Box<InstMatcher>,
    pub rhs_matcher: Box<InstMatcher>,
    pub predicate: FloatPredicate,
    pub commutatively: bool,
}

impl FloatComparisonInstMatcher {
    pub open spec fn spec_match(self, n: IrNode) -> bool
        decreases self,
    {
        &&& n.opcode == Opcode::FCmp
        &&& n.float_predicate == self.predicate
        &&& n.operands@.len() >= 2
        &&& {
            ||| (self.lhs_matcher.spec_match(n.operands@[0])
                && self.rhs_matcher.spec_match(n.operands@[1]))
            ||| (self.commutatively && self.lhs_matcher.spec_match(n.operands@[1])
                && self.rhs_matcher.spec_match(n.operands@[0]))
        }
    }

    pub fn is_match(&self, node: &IrNode) -> (r: bool)
        ensures
            r == self.spec_match(*node),
        decreases self,
    {
        if node.opcode != Opcode::FCmp || node.float_predicate != self.predicate {
            return false;
        }
        if node.operands.len() < 2 {
            return false;
        }
        let lhs = &node.operands[0];
        let rhs = &node.operands[1];
        if self.lhs_matcher.is_match(lhs) && self.rhs_matcher.is_match(rhs) {
            return true;
        }
        if self.commutatively && self.lhs_matcher.is_match(rhs) && self.rhs_matcher.is_match(lhs) {
            return true;
        }
        false
    }

    /// Holds when `r` is a float comparison matcher built from these parts.
    pub open spec fn spec_created(
        r: InstMatcher,
        predicate: FloatPredicate,
        commutatively: bool,
        lhs: InstMatcher,
        rhs: InstMatcher,
    ) -> bool {
        r matches InstMatcher::FloatComparison(m) && *m.lhs_matcher == lhs && *m.rhs_matcher == rhs
            && m.predicate == predicate && m.commutatively == commutatively
    }

    pub fn create(
        predicate: FloatPredicate,
        commutatively: bool,
        lhs: InstMatcher,
        rhs: InstMatcher,
    ) -> (r: InstMatcher)
        ensures
            Self::spec_created(r, predicate, commutatively, lhs, rhs),
    {
        InstMatcher::FloatComparison(
            FloatComparisonInstMatcher {
                lhs_matcher: Box::new(lhs),
                rhs_matcher: Box::new(rhs),
                predicate,
                commutatively,
            },
        )
    }
}

} // verus!
