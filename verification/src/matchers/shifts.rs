//! Matchers for logical and arithmetic shift instructions.

use vstd::prelude::*;

use crate::ir::IrNode;
use crate::ir::Opcode;
use crate::matchers::InstMatcher;

verus! {

/// The shift opcodes a shift matcher can ask for.
#[derive(Clone, Copy, PartialEq, Eq, Structural, Debug)]
pub enum ShiftKind {
    LogicalShiftLeft,
    LogicalShiftRight,
    ArithmeticShiftRight,
}

impl ShiftKind {
    /// The instruction opcode this shift kind stands for.
    pub open spec fn spec_opcode(self) -> Opcode {
        match self {
            ShiftKind::LogicalShiftLeft => Opcode::Shl,
            ShiftKind::LogicalShiftRight => Opcode::LShr,
            ShiftKind::ArithmeticShiftRight => Opcode::AShr,
        }
    }

    pub fn opcode(&self) -> (r: Opcode)
        ensures
            r == self.spec_opcode(),
    {
        match self {
            ShiftKind::LogicalShiftLeft => Opcode::Shl,
            ShiftKind::LogicalShiftRight => Opcode::LShr,
            ShiftKind::ArithmeticShiftRight => Opcode::AShr,
        }
    }
}

/// Matches a shift instruction of one specific kind; operand matching
/// follows the commutative rule.
pub struct ShiftInstMatcher {
    pub lhs_matcher: Box<InstMatcher>,
    pub rhs_matcher: Box<InstMatcher>,
    pub shift_kind: ShiftKind,
    pub commutatively: bool,
}

impl ShiftInstMatcher {
    pub open spec fn spec_match(self, n: IrNode) -> bool
        decreases self,
    {
        &&& n.opcode == self.shift_kind.spec_opcode()
        &&& n.operands@.len() >= 2
        &&& {
            ||| (self.lhs_matcher.spec_match(n.operands@[0])
                && self.rhs_matcher.spec_match(n.operands@[1]))
            ||| (self.commutatively && self.lhs_matcher.spec_match(n.operands@[1])
                && self.rhs_matcher.spec_match(n.operands@[0]))
        }
    }

    pub fn is_match(&self, node: &IrNode) -> (r: bool)
        ensures
            r == self.spec_match(*node),
        decreases self,
    {
        if node.opcode != self.shift_kind.opcode() {
            return false;
        }
        if node.operands.len() < 2 {
            return false;
        }
        let lhs = &node.operands[0];
        let rhs = &node.operands[1];
        if self.lhs_matcher.is_match(lhs) && self.rhs_matcher.is_match(rhs) {
            return true;
        }
        if self.commutatively && self.lhs_matcher.is_match(rhs) && self.rhs_matcher.is_match(lhs) {
            return true;
        }
        false
    }

    /// Holds when `r` is a shift matcher built from exactly these parts.
    pub open spec fn spec_created(
        r: InstMatcher,
        shift_kind: ShiftKind,
        commutatively: bool,
        lhs: InstMatcher,
        rhs: InstMatcher,
    ) -> bool {
        r matches InstMatcher::Shift(m) && *m.lhs_matcher == lhs && *m.rhs_matcher == rhs
            && m.shift_kind == shift_kind && m.commutatively == commutatively
    }

    pub fn create(
        shift_kind: ShiftKind,
        commutatively: bool,
        lhs: InstMatcher,
        rhs: InstMatcher,
    ) -> (r: InstMatcher)
        ensures
            Self::spec_created(r, shift_kind, commutatively, lhs, rhs),
    {
        InstMatcher::Shift(
            ShiftInstMatcher {
                lhs_matcher: Box::new(lhs),
                rhs_matcher: Box::new(rhs),
                shift_kind,
                commutatively,
            },
        )
    }
}

} // verus!
