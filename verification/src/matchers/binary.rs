//! The general binary instruction matcher: one matcher over arithmetic,
//! bitwise and shift opcodes, selected by a [`BinaryOperator`] tag, with an
//! `Any` tag that accepts every binary opcode.

use vstd::prelude::*;

use crate::ir::IrNode;
use crate::ir::Opcode;
use crate::matchers::InstMatcher;

verus! {

/// Which binary opcodes a [`BinaryInstMatcher`] accepts.
#[derive(Clone, Copy, PartialEq, Eq, Structural, Debug)]
pub enum BinaryOperator {
    Any,
    Add,
    Sub,
    Mul,
    SDiv,
    SRem,
    FAdd,
    FSub,
    FMul,
    FDiv,
    FRem,
    And,
    Or,
    OrDisjoint,
    Xor,
    LogicalShiftLeft,
    LogicalShiftRight,
    ArithmeticShiftRight,
}

impl BinaryOperator {
    /// Whether an instruction opcode falls under this operator tag.
    pub open spec fn spec_matches_opcode(self, op: Opcode) -> bool {
        match op {
            Opcode::Add => self is Any || self is Add,
            Opcode::Sub => self is Any || self is Sub,
            Opcode::Mul => self is Any || self is Mul,
            Opcode::SDiv => self is Any || self is SDiv,
            Opcode::SRem => self is Any || self is SRem,
            Opcode::FAdd => self is Any || self is FAdd,
            Opcode::FSub => self is Any || self is FSub,
            Opcode::FMul => self is Any || self is FMul,
            Opcode::FDiv => self is Any || self is FDiv,
            Opcode::FRem => self is Any || self is FRem,
            Opcode::And => self is Any || self is And,
            Opcode::Or => self is Any || self is Or || self is OrDisjoint,
            Opcode::Xor => self is Any || self is Xor,
            Opcode::Shl => self is Any || self is LogicalShiftLeft,
            Opcode::LShr => self is Any || self is LogicalShiftRight,
            Opcode::AShr => self is Any || self is ArithmeticShiftRight,
            _ => false,
        }
    }

    pub fn matches_opcode(&self, op: Opcode) -> (r: bool)
        ensures
            r == self.spec_matches_opcode(op),
    {
        match op {
            Opcode::Add => matches!(self, BinaryOperator::Any | BinaryOperator::Add),
            Opcode::Sub => matches!(self, BinaryOperator::Any | BinaryOperator::Sub),
            Opcode::Mul => matches!(self, BinaryOperator::Any | BinaryOperator::Mul),
            Opcode::SDiv => matches!(self, BinaryOperator::Any | BinaryOperator::SDiv),
            Opcode::SRem => matches!(self, BinaryOperator::Any | BinaryOperator::SRem),
            Opcode::FAdd => matches!(self, BinaryOperator::Any | BinaryOperator::FAdd),
            Opcode::FSub => matches!(self, BinaryOperator::Any | BinaryOperator::FSub),
            Opcode::FMul => matches!(self, BinaryOperator::Any | BinaryOperator::FMul),
            Opcode::FDiv => matches!(self, BinaryOperator::Any | BinaryOperator::FDiv),
            Opcode::FRem => matches!(self, BinaryOperator::Any | BinaryOperator::FRem),
            Opcode::And => matches!(self, BinaryOperator::Any | BinaryOperator::And),
            Opcode::Or => matches!(
                self,
                BinaryOperator::Any | BinaryOperator::Or | BinaryOperator::OrDisjoint,
            ),
            Opcode::Xor => matches!(self, BinaryOperator::Any | BinaryOperator::Xor),
            Opcode::Shl => matches!(self, BinaryOperator::Any | BinaryOperator::LogicalShiftLeft),
            Opcode::LShr => matches!(
                self,
                BinaryOperator::Any | BinaryOperator::LogicalShiftRight,
            ),
            Opcode::AShr => matches!(
                self,
                BinaryOperator::Any | BinaryOperator::ArithmeticShiftRight,
            ),
            _ => false,
        }
    }
}

/// Matches a binary instruction whose opcode falls under the operator tag;
/// the disjoint-or tag additionally requires the disjoint flag on the
/// instruction.  Operand matching follows the commutative rule.
pub struct BinaryInstMatcher {
    pub lhs_matcher: Box<InstMatcher>,
    pub rhs_matcher: Box<InstMatcher>,
    pub operator: BinaryOperator,
    pub commutatively: bool,
}

impl BinaryInstMatcher {
    pub open spec fn spec_match(self, n: IrNode) -> bool
        decreases self,
    {
        &&& self.operator.spec_matches_opcode(n.opcode)
        &&& (self.operator is OrDisjoint ==> n.is_or_disjoint)
        &&& n.operands@.len() >= 2
        &&& {
            ||| (self.lhs_matcher.spec_match(n.operands@[0])
                && self.rhs_matcher.spec_match(n.operands@[1]))
            ||| (self.commutatively && self.lhs_matcher.spec_match(n.operands@[1])
                && self.rhs_matcher.spec_match(n.operands@[0]))
        }
    }

    pub fn is_match(&self, node: &IrNode) -> (r: bool)
        ensures
            r == self.spec_match(*node),
        decreases self,
    {
        if !self.operator.matches_opcode(node.opcode) {
            return false;
        }
        if matches!(self.operator, BinaryOperator::OrDisjoint) && !node.is_or_disjoint {
            return false;
        }
        if node.operands.len() < 2 {
            return false;
        }
        let lhs = &node.operands[0];
        let rhs = &node.operands[1];
        if self.lhs_matcher.is_match(lhs) && self.rhs_matcher.is_match(rhs) {
            return true;
        }
        if self.commutatively && self.lhs_matcher.is_match(rhs) && self.rhs_matcher.is_match(lhs) {
            return true;
        }
        false
    }

    /// Holds when `r` is a binary matcher built from exactly these parts.
    pub open spec fn spec_created(
        r: InstMatcher,
        operator: BinaryOperator,
        commutatively: bool,
        lhs: InstMatcher,
        rhs: InstMatcher,
    ) -> bool {
        r matches InstMatcher::Binary(m) && *m.lhs_matcher == lhs && *m.rhs_matcher == rhs
            && m.operator == operator && m.commutatively == commutatively
    }

    pub fn create(
        operator: BinaryOperator,
        commutatively: bool,
        lhs: InstMatcher,
        rhs: InstMatcher,
    ) -> (r: InstMatcher)
        ensures
            Self::spec_created(r, operator, commutatively, lhs, rhs),
    {
        InstMatcher::Binary(
            BinaryInstMatcher {
                lhs_matcher: Box::new(lhs),
                rhs_matcher: Box::new(rhs),
                operator,
                commutatively,
            },
        )
    }
}

} // verus!
