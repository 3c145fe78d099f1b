//! Matchers for integer comparison instructions.

use vstd::prelude::*;

use crate::ir::IntPredicate;
use crate::ir::IrNode;
use crate::ir::Opcode;
use crate::matchers::InstMatcher;

verus! {

/// Matches an integer comparison: the opcode must be `icmp`, the predicate
/// must equal the target, and the operands must match the two sub-matchers in
/// order, or in swapped order when created commutatively.
pub struct IntComparisonInstMatcher {
    pub lhs_matcher: Box<InstMatcher>,
    pub rhs_matcher: Box<InstMatcher>,
    pub predicate: IntPredicate,
    pub commutatively: bool,
}

impl IntComparisonInstMatcher {
    pub open spec fn spec_match(self, n: IrNode) -> bool
        decreases self,
    {
        &&& n.opcode == Opcode::ICmp
        &&& n.int_predicate == self.predicate
        &&& n.operands@.len() >= 2
        &&& {
            ||| (self.lhs_matcher.spec_match(n.operands@[0])
                && self.rhs_matcher.spec_match(n.operands@[1]))
            ||| (self.commutatively && self.lhs_matcher.spec_match(n.operands@[1])
                && self.rhs_matcher.spec_match(n.operands@[0]))
        }
    }

    pub fn is_match(&self, node: &IrNode) -> (r: bool)
        ensures
            r == self.spec_match(*node),
        decreases self,
    {
        if node.opcode != Opcode::ICmp || node.int_predicate != self.predicate {
            return false;
        }
        if node.operands.len() < 2 {
            return false;
        }
        let lhs = &node.operands[0];
        let rhs = &node.operands[1];
        if self.lhs_matcher.is_match(lhs) && self.rhs_matcher.is_match(rhs) {
            return true;
        }
        if self.commutatively && self.lhs_matcher.is_match(rhs) && self.rhs_matcher.is_match(lhs) {
            return true;
        }
        false
    }

    /// Holds when `r` is an integer comparison matcher built from these parts.
    pub open spec fn spec_created(
        r: InstMatcher,
        predicate: IntPredicate,
        commutatively: bool,
        lhs: InstMatcher,
        rhs: InstMatcher,
    ) -> bool {
        r matches InstMatcher::IntComparison(m) && *m.lhs_matcher == lhs && *m.rhs_matcher == rhs
            && m.predicate == predicate && m.commutatively == commutatively
    }

    pub fn create(
        predicate: IntPredicate,
        commutatively: bool,
        lhs: InstMatcher,
        rhs: InstMatcher,
    ) -> (r: InstMatcher)
        ensures
            Self::spec_created(r, predicate, commutatively, lhs, rhs),
    {
        InstMatcher::IntComparison(
            IntComparisonInstMatcher {
                lhs_matcher: Box::new(lhs),
                rhs_matcher: Box::new(rhs),
                predicate,
                commutatively,
            },
        )
    }
}

} // verus!
