//! Matchers for binary arithmetic instructions: integer and floating add,
//! sub, mul, div and rem, with or without commutative operand matching.

use vstd::prelude::*;

use crate::ir::IrNode;
use crate::ir::Opcode;
use crate::matchers::InstMatcher;

verus! {

/// Matches a binary arithmetic instruction: the opcode must equal the target,
/// and the two operands must match the two sub-matchers in order, or in
/// swapped order when the matcher was created commutatively.
pub struct ArithmeticInstMatcher {
    pub lhs_matcher: Box<InstMatcher>,
    pub rhs_matcher: Box<InstMatcher>,
    pub opcode: Opcode,
    pub commutatively: bool,
}

impl ArithmeticInstMatcher {
    pub open spec fn spec_match(self, n: IrNode) -> bool
        decreases self,
    {
        &&& n.opcode == self.opcode
        &&& n.operands@.len() >= 2
        &&& {
            ||| (self.lhs_matcher.spec_match(n.operands@[0])
                && self.rhs_matcher.spec_match(n.operands@[1]))
            ||| (self.commutatively && self.lhs_matcher.spec_match(n.operands@[1])
                && self.rhs_matcher.spec_match(n.operands@[0]))
        }
    }

    pub fn is_match(&self, node: &IrNode) -> (r: bool)
        ensures
            r == self.spec_match(*node),
        decreases self,
    {
        if node.opcode != self.opcode {
            return false;
        }
        if node.operands.len() < 2 {
            return false;
        }
        let lhs = &node.operands[0];
        let rhs = &node.operands[1];
        if self.lhs_matcher.is_match(lhs) && self.rhs_matcher.is_match(rhs) {
            return true;
        }
        if self.commutatively && self.lhs_matcher.is_match(rhs) && self.rhs_matcher.is_match(lhs) {
            return true;
        }
        false
    }

    /// Holds when `r` is an arithmetic matcher built from exactly these parts.
    pub open spec fn spec_created(
        r: InstMatcher,
        opcode: Opcode,
        commutatively: bool,
        lhs: InstMatcher,
        rhs: InstMatcher,
    ) -> bool {
        r matches InstMatcher::Arithmetic(m) && *m.lhs_matcher == lhs && *m.rhs_matcher == rhs
            && m.opcode == opcode && m.commutatively == commutatively
    }

    pub fn create(opcode: Opcode, commutatively: bool, lhs: InstMatcher, rhs: InstMatcher) -> (r:
        InstMatcher)
        ensures
            Self::spec_created(r, opcode, commutatively, lhs, rhs),
    {
        InstMatcher::Arithmetic(
            ArithmeticInstMatcher {
                lhs_matcher: Box::new(lhs),
                rhs_matcher: Box::new(rhs),
                opcode,
                commutatively,
            },
        )
    }

    pub fn create_add(lhs: InstMatcher, rhs: InstMatcher) -> (r: InstMatcher)
        ensures
            Self::spec_created(r, Opcode::Add, false, lhs, rhs),
    {
        Self::create(Opcode::Add, false, lhs, rhs)
    }

    pub fn create_commutatively_add(lhs: InstMatcher, rhs: InstMatcher) -> (r: InstMatcher)
        ensures
            Self::spec_created(r, Opcode::Add, true, lhs, rhs),
    {
        Self::create(Opcode::Add, true, lhs, rhs)
    }
}

} // verus!
